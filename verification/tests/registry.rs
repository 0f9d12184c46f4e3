use command_processor::{
    CommandCallbackReturn, CommandProcessor, HelpText, ReturnCode, Sink,
};
use heapless::String;

fn printer_demo(_: Option<&mut (dyn Sink + 'static)>) -> CommandCallbackReturn {
    Ok(ReturnCode::Success)
}

fn help(text: &str) -> Option<HelpText<32>> {
    Some(HelpText::new(text).unwrap())
}

#[test]
fn test_command_processor() {
    let mut command_processor: CommandProcessor<8, 32> = CommandProcessor::new();

    assert!(command_processor
        .add_command(String::from("test"), printer_demo, help("Test command"))
        .is_ok());

    let result = command_processor.process_command(&String::from("test"), None);
    assert!(result.is_ok());
    assert_eq!(result.unwrap(), ReturnCode::Success);
}

#[test]
fn test_no_commands() {
    let mut command_processor: CommandProcessor<8, 32> = CommandProcessor::new();

    let result = command_processor.process_command(&String::from("test"), None);
    assert!(result.is_err());
}

#[test]
fn test_too_many_commands() {
    let mut command_processor: CommandProcessor<1, 32> = CommandProcessor::new();

    assert!(command_processor
        .add_command(String::from("test"), printer_demo, help("Test command"))
        .is_ok());

    assert!(command_processor
        .add_command(String::from("test2"), printer_demo, help("Test command 2"))
        .is_err());
}

#[test]
fn test_remove_command() {
    let mut command_processor: CommandProcessor<8, 32> = CommandProcessor::new();

    assert!(command_processor
        .add_command(String::from("test"), printer_demo, help("Test command"))
        .is_ok());

    assert!(command_processor
        .remove_command(String::from("test"))
        .is_ok());

    let result = command_processor.process_command(&String::from("test"), None);
    assert!(result.is_err());
}

#[test]
fn test_remove_command_not_found() {
    let mut command_processor: CommandProcessor<8, 32> = CommandProcessor::new();

    assert!(command_processor
        .add_command(String::from("test"), printer_demo, help("Test command"))
        .is_ok());

    assert!(command_processor
        .remove_command(String::from("test2"))
        .is_err());
}

#[test]
fn test_writable_command() {
    let mut command_processor: CommandProcessor<8, 32> = CommandProcessor::new();

    assert!(command_processor
        .add_command(String::from("test"), printer_demo, help("Test command"))
        .is_ok());

    let mut buffer = std::string::String::new();
    let result = command_processor.process_command(&String::from("test"), Some(&mut buffer));
    assert!(result.is_ok());
    assert_eq!(result.unwrap(), ReturnCode::Success);
}

#[test]
fn test_unknown_command() {
    let mut command_processor: CommandProcessor<8, 32> = CommandProcessor::new();

    assert!(command_processor
        .add_command(String::from("test"), printer_demo, help("Test command"))
        .is_ok());

    let result = command_processor.process_command(&String::from("unknown"), None);
    assert!(result.is_err());
}

#[test]
fn test_help_command() {
    let mut command_processor: CommandProcessor<8, 32> = CommandProcessor::new();

    assert!(command_processor
        .add_command(String::from("test"), printer_demo, help("test: Test command"))
        .is_ok());

    let mut buffer = std::string::String::new();

    assert!(command_processor
        .process_command(&String::from("help"), Some(&mut buffer))
        .is_ok());

    assert_eq!(buffer, std::string::String::from("test: Test command\n"));
}
