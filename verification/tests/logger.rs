use sonar::logger::{LogLevel, Logger};

#[test]
fn a_silent_logger_lets_nothing_through() {
    let logger = Logger::new(LogLevel::NONE);
    assert_eq!(logger.error(String::from("e")), None);
    assert_eq!(logger.log(String::from("l")), None);
    assert_eq!(logger.info(String::from("i")), None);
}

#[test]
fn a_normal_logger_lets_errors_and_messages_through() {
    let logger = Logger::new(LogLevel::NORMAL);
    assert_eq!(logger.error(String::from("disk full")), Some(String::from("Error disk full")));
    assert_eq!(logger.log(String::from("started")), Some(String::from("started")));
    assert_eq!(logger.info(String::from("detail")), None);
}

#[test]
fn a_verbose_logger_lets_everything_through() {
    let logger = Logger::new(LogLevel::VERBOSE);
    assert_eq!(logger.error(String::from("disk full")), Some(String::from("Error disk full")));
    assert_eq!(logger.log(String::from("started")), Some(String::from("started")));
    assert_eq!(logger.info(String::from("detail")), Some(String::from("INFO detail")));
}
