use zefiro::message::{InputMessage, Message, MessageError};
use zefiro::priority::JobPriority;
use zefiro::resources::JobResources;

fn input(id: &str, image: &str, priority: &str) -> InputMessage {
    InputMessage {
        id: id.to_string(),
        image: image.to_string(),
        min_resources: JobResources::new(1000, 512, 512),
        max_resources: None,
        time_limit: 60,
        args: vec!["--x=1".to_string()],
        priority: priority.to_string(),
    }
}

#[test]
fn a_sound_request_passes_as_it_is() {
    let message = Message::from_input(input("job-1", "tool:latest", "low")).expect("checked");
    assert_eq!(
        message,
        Message {
            job_id: "job-1".to_string(),
            image: "tool:latest".to_string(),
            min_resources: JobResources::new(1000, 512, 512),
            max_resources: None,
            time_limit: 60,
            args: vec!["--x=1".to_string()],
            priority: JobPriority::Low,
        }
    );
    assert_eq!(message.clone(), message);
}

#[test]
fn a_request_without_a_name_is_turned_down() {
    assert_eq!(Message::from_input(input("", "tool:latest", "low")), Err(MessageError::EmptyId));
    assert_eq!(Message::from_input(input("", "", "nope")), Err(MessageError::EmptyId));
}

#[test]
fn a_request_without_an_image_is_turned_down() {
    assert_eq!(Message::from_input(input("job-1", "", "low")), Err(MessageError::EmptyImage));
    assert_eq!(Message::from_input(input("job-1", "", "nope")), Err(MessageError::EmptyImage));
}

#[test]
fn a_request_with_an_unknown_priority_is_turned_down() {
    assert_eq!(
        Message::from_input(input("job-1", "tool:latest", "urgent")),
        Err(MessageError::UnknownPriority("urgent".to_string()))
    );
    assert_eq!(
        Message::from_input(input("job-1", "tool:latest", "LOW")),
        Err(MessageError::UnknownPriority("LOW".to_string()))
    );
}

#[test]
fn every_rank_is_taken() {
    for (word, rank) in [
        ("lowest", JobPriority::Lowest),
        ("low", JobPriority::Low),
        ("medium", JobPriority::Medium),
        ("high", JobPriority::High),
        ("highest", JobPriority::Highest),
    ] {
        let message = Message::from_input(input("job", "image", word)).expect("checked");
        assert_eq!(message.priority, rank);
    }
}

#[test]
fn message_errors_say_what_is_wrong() {
    assert_eq!(MessageError::EmptyId.to_string(), "The request names no job");
    assert_eq!(MessageError::EmptyImage.to_string(), "The request names no image");
    assert_eq!(MessageError::UnknownPriority("urgent".to_string()).to_string(), "Unknown priority: urgent");
}
