use mafia_engine::actor::real_actor::{parse_real_command, parse_submission, RealActor};
use mafia_engine::data::action::Action;

#[test]
fn each_command_is_recognized() {
    assert_eq!(parse_real_command("!abstain"), Some(Action::Abstain));
    assert_eq!(parse_real_command("!tag 3"), Some(Action::TagPlayerForComment { id: 3 }));
    assert_eq!(
        parse_real_command("!whisper 2 meet me at dawn"),
        Some(Action::Whisper { to: 2, message: "meet me at dawn".to_string() })
    );
    assert_eq!(parse_real_command("!talk hello all"), Some(Action::Talk("hello all".to_string())));
    assert_eq!(parse_real_command("!provide_id 255"), Some(Action::ProvideID(255)));
}

#[test]
fn white_space_around_a_line_does_not_count() {
    assert_eq!(parse_real_command("  !abstain \r"), Some(Action::Abstain));
    assert_eq!(parse_real_command("\t!tag   7  "), Some(Action::TagPlayerForComment { id: 7 }));
    assert_eq!(parse_real_command(" !talk  two  spaces "), Some(Action::Talk(" two  spaces".to_string())));
    assert_eq!(parse_real_command("!provide_id  4 "), Some(Action::ProvideID(4)));
}

#[test]
fn a_whisper_keeps_the_message_as_it_is() {
    assert_eq!(
        parse_real_command("!whisper 2  x"),
        Some(Action::Whisper { to: 2, message: " x".to_string() })
    );
    assert_eq!(parse_real_command("!whisper 2"), None);
    assert_eq!(parse_real_command("!whisper  2 x"), None);
    assert_eq!(parse_real_command("!whisper two x"), None);
    assert_eq!(parse_real_command("!whisper 256 x"), None);
}

#[test]
fn lines_that_are_no_commands_are_refused() {
    assert_eq!(parse_real_command(""), None);
    assert_eq!(parse_real_command("hello"), None);
    assert_eq!(parse_real_command("!abstain now"), None);
    assert_eq!(parse_real_command("!Abstain"), None);
    assert_eq!(parse_real_command("!tag"), None);
    assert_eq!(parse_real_command("!tag "), None);
    assert_eq!(parse_real_command("!tag x"), None);
    assert_eq!(parse_real_command("!tag 300"), None);
    assert_eq!(parse_real_command("!tag -1"), None);
    assert_eq!(parse_real_command("!talk"), None);
    assert_eq!(parse_real_command("!talk "), None);
    assert_eq!(parse_real_command("!provide_id"), None);
    assert_eq!(parse_real_command("!provide_id 1 2"), None);
    assert_eq!(parse_real_command("!vote 1"), None);
}

#[test]
fn the_method_and_the_function_agree() {
    for line in ["!abstain", "!tag 1", "nonsense", "!talk hi", "!whisper 1 x", "!provide_id 9"] {
        assert_eq!(RealActor::parse_command(line), parse_real_command(line));
    }
}

#[test]
fn a_submission_without_a_command_is_nothing() {
    assert_eq!(parse_submission(""), None);
    assert_eq!(parse_submission("hello\nworld"), None);
    assert_eq!(parse_submission("\n\n"), None);
    assert_eq!(parse_submission("!tag\n!whisper 1"), None);
}

#[test]
fn a_submission_with_one_command_is_that_action() {
    assert_eq!(parse_submission("!abstain"), Some(Action::Abstain));
    assert_eq!(parse_submission("hm\n!talk I am town\n"), Some(Action::Talk("I am town".to_string())));
    assert_eq!(parse_submission("!provide_id 3\r\n"), Some(Action::ProvideID(3)));
}

#[test]
fn a_submission_with_several_commands_is_their_bundle() {
    assert_eq!(
        parse_submission("!talk first\nnoise\n!tag 2\r\n!whisper 1 hi"),
        Some(Action::MultiCall(vec![
            Action::Talk("first".to_string()),
            Action::TagPlayerForComment { id: 2 },
            Action::Whisper { to: 1, message: "hi".to_string() },
        ]))
    );
}
