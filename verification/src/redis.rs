//! The hand-over of a job to the queue.

use vstd::prelude::*;
use vstd::string::*;

verus! {

/// Why a job did not get into the queue.
#[derive(Debug)]
pub enum QueueError {
    /// The queue holds a job of the same id already. The caller may take this
    /// lightly: the job is in the queue.
    AlreadyQueued,
    /// The job could not be written out, or the queue could not be reached.
    Failed(String),
}

pub enum QueueErrorView {
    AlreadyQueued,
    Failed(Seq<char>),
}

impl View for QueueError {
    type V = QueueErrorView;

    open spec fn view(&self) -> QueueErrorView {
        match self {
            QueueError::AlreadyQueued => QueueErrorView::AlreadyQueued,
            QueueError::Failed(msg) => QueueErrorView::Failed(msg@),
        }
    }
}

pub open spec fn msg_already_queued() -> Seq<char> {
    "Job ID Already Exists in Queue"@
}

impl QueueErrorView {
    pub open spec fn message(self) -> Seq<char> {
        match self {
            QueueErrorView::AlreadyQueued => msg_already_queued(),
            QueueErrorView::Failed(msg) => msg,
        }
    }
}

impl QueueError {
    /// The error in words, for the log.
    pub fn message(&self) -> (m: String)
        ensures
            m@ == self@.message(),
    {
        match self {
            QueueError::AlreadyQueued => "Job ID Already Exists in Queue".to_string(),
            QueueError::Failed(msg) => msg.clone(),
        }
    }
}

/// What the queue's reply to a push means: `Ok(true)` that the job was added,
/// `Ok(false)` that a job of its id was there already.
pub open spec fn pushed(reply: Result<bool, Seq<char>>) -> Result<(), QueueErrorView> {
    match reply {
        Ok(true) => Ok(()),
        Ok(false) => Err(QueueErrorView::AlreadyQueued),
        Err(msg) => Err(QueueErrorView::Failed(msg)),
    }
}

pub open spec fn reply_view(reply: Result<bool, String>) -> Result<bool, Seq<char>> {
    match reply {
        Ok(b) => Ok(b),
        Err(e) => Err(e@),
    }
}

pub open spec fn push_view(r: Result<(), QueueError>) -> Result<(), QueueErrorView> {
    match r {
        Ok(_) => Ok(()),
        Err(e) => Err(e@),
    }
}

/// Reads the queue's reply to the push of a job.
pub fn insert_job(reply: Result<bool, String>) -> (r: Result<(), QueueError>)
    ensures
        push_view(r) == pushed(reply_view(reply)),
{
    match reply {
        Ok(true) => Ok(()),
        Ok(false) => Err(QueueError::AlreadyQueued),
        Err(msg) => Err(QueueError::Failed(msg)),
    }
}

} // verus!
