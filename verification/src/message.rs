//! The request to run one workflow step, as it arrives and as it is once it
//! has been checked.

use vstd::prelude::*;
use crate::manifest::clone_texts;
use crate::priority::{priority_from_name, JobPriority};
use crate::resources::{JobResources, JobResourcesView};

verus! {

/// A request as it arrives: the priority is still a word.
#[derive(Debug, PartialEq, Eq)]
pub struct InputMessage {
    pub id: String,
    pub image: String,
    pub min_resources: JobResources,
    pub max_resources: Option<JobResources>,
    pub time_limit: usize,
    pub args: Vec<String>,
    pub priority: String,
}

/// What an `InputMessage` holds, as the contracts speak of it.
pub struct InputMessageView {
    pub id: Seq<char>,
    pub image: Seq<char>,
    pub min_resources: JobResourcesView,
    pub max_resources: Option<JobResourcesView>,
    pub time_limit: nat,
    pub args: Seq<Seq<char>>,
    pub priority: Seq<char>,
}

impl DeepView for InputMessage {
    type V = InputMessageView;

    open spec fn deep_view(&self) -> InputMessageView {
        InputMessageView {
            id: self.id@,
            image: self.image@,
            min_resources: self.min_resources.deep_view(),
            max_resources: self.max_resources.deep_view(),
            time_limit: self.time_limit as nat,
            args: self.args.deep_view(),
            priority: self.priority@,
        }
    }
}

/// A request that has been checked: it names a job and an image, and its
/// priority is one of the five ranks.
#[derive(Debug, PartialEq, Eq)]
pub struct Message {
    pub job_id: String,
    pub image: String,
    pub min_resources: JobResources,
    pub max_resources: Option<JobResources>,
    pub time_limit: usize,
    pub args: Vec<String>,
    pub priority: JobPriority,
}

/// What a `Message` holds, as the contracts speak of it.
pub struct MessageView {
    pub job_id: Seq<char>,
    pub image: Seq<char>,
    pub min_resources: JobResourcesView,
    pub max_resources: Option<JobResourcesView>,
    pub time_limit: nat,
    pub args: Seq<Seq<char>>,
    pub priority: JobPriority,
}

impl DeepView for Message {
    type V = MessageView;

    open spec fn deep_view(&self) -> MessageView {
        MessageView {
            job_id: self.job_id@,
            image: self.image@,
            min_resources: self.min_resources.deep_view(),
            max_resources: self.max_resources.deep_view(),
            time_limit: self.time_limit as nat,
            args: self.args.deep_view(),
            priority: self.priority,
        }
    }
}

impl Clone for Message {
    fn clone(&self) -> (copy: Self)
        ensures
            copy.deep_view() == self.deep_view(),
    {
        Message {
            job_id: self.job_id.clone(),
            image: self.image.clone(),
            min_resources: self.min_resources,
            max_resources: self.max_resources,
            time_limit: self.time_limit,
            args: clone_texts(&self.args),
            priority: self.priority,
        }
    }
}

/// Why a request is turned down.
#[derive(Debug, PartialEq, Eq)]
pub enum MessageError {
    /// The request names no job.
    EmptyId,
    /// The request names no image.
    EmptyImage,
    /// The priority is none of the five ranks; the word is handed back.
    UnknownPriority(String),
}

/// What a `MessageError` holds, as the contracts speak of it.
pub enum MessageErrorView {
    EmptyId,
    EmptyImage,
    UnknownPriority(Seq<char>),
}

impl DeepView for MessageError {
    type V = MessageErrorView;

    open spec fn deep_view(&self) -> MessageErrorView {
        match self {
            MessageError::EmptyId => MessageErrorView::EmptyId,
            MessageError::EmptyImage => MessageErrorView::EmptyImage,
            MessageError::UnknownPriority(word) => MessageErrorView::UnknownPriority(word@),
        }
    }
}

/// The message of an error.
pub open spec fn message_error_text(error: MessageErrorView) -> Seq<char> {
    match error {
        MessageErrorView::EmptyId => "The request names no job"@,
        MessageErrorView::EmptyImage => "The request names no image"@,
        MessageErrorView::UnknownPriority(word) => "Unknown priority: "@ + word,
    }
}

impl MessageError {
    /// The message of this error.
    pub fn to_string(&self) -> (text: String)
        ensures
            text@ == message_error_text(self.deep_view()),
    {
        match self {
            MessageError::EmptyId => "The request names no job".to_string(),
            MessageError::EmptyImage => "The request names no image".to_string(),
            MessageError::UnknownPriority(word) => {
                let mut text = "Unknown priority: ".to_string();
                text.append(word.as_str());
                text
            },
        }
    }
}

/// What checking a request comes to: the checked request, or the first
/// thing that is wrong with it, looking at the job's name, then at the
/// image, then at the priority.
pub open spec fn checked(input: InputMessageView) -> Result<MessageView, MessageErrorView> {
    if input.id.len() == 0 {
        Err(MessageErrorView::EmptyId)
    } else if input.image.len() == 0 {
        Err(MessageErrorView::EmptyImage)
    } else {
        match priority_from_name(input.priority) {
            None => Err(MessageErrorView::UnknownPriority(input.priority)),
            Some(priority) => Ok(
                MessageView {
                    job_id: input.id,
                    image: input.image,
                    min_resources: input.min_resources,
                    max_resources: input.max_resources,
                    time_limit: input.time_limit,
                    args: input.args,
                    priority,
                },
            ),
        }
    }
}

/// View of the result of a check.
pub open spec fn checked_view(result: Result<Message, MessageError>) -> Result<
    MessageView,
    MessageErrorView,
> {
    match result {
        Ok(message) => Ok(message.deep_view()),
        Err(error) => Err(error.deep_view()),
    }
}

impl Message {
    /// Checks a request as it arrived.
    pub fn from_input(input: InputMessage) -> (result: Result<Message, MessageError>)
        ensures
            checked_view(result) == checked(input.deep_view()),
    {
        if input.id.as_str().is_empty() {
            return Err(MessageError::EmptyId);
        }
        if input.image.as_str().is_empty() {
            return Err(MessageError::EmptyImage);
        }
        match JobPriority::from_name(input.priority.as_str()) {
            None => Err(MessageError::UnknownPriority(input.priority)),
            Some(priority) => Ok(
                Message {
                    job_id: input.id,
                    image: input.image,
                    min_resources: input.min_resources,
                    max_resources: input.max_resources,
                    time_limit: input.time_limit,
                    args: input.args,
                    priority,
                },
            ),
        }
    }
}

} // verus!
