//! What the upload-notification worker decides: whether it runs, where it
//! connects, and which uploads a queue message reports.
use crate::infrastructure::mapper::text_view;
use crate::text::{is_blank, is_blank_str};
use vstd::prelude::*;

verus! {

/// The bucket and object an upload notification names.
#[derive(Debug, Clone)]
pub struct S3Entity {
    pub bucket: String,
    pub key: String,
    pub size: Option<i64>,
    pub etag: Option<String>,
}

/// One record of an upload notification.
#[derive(Debug, Clone)]
pub struct S3NotificationRecord {
    pub event_name: String,
    pub s3: Option<S3Entity>,
}

/// An upload notification: its records, in order.
#[derive(Debug, Clone)]
pub struct S3Notification {
    pub records: Vec<S3NotificationRecord>,
}

/// The worker runs only for a configured queue address with text.
pub fn queue_url(configured: Option<String>) -> (r: Option<String>)
    ensures
        match configured {
            Some(u) => if is_blank(u@) {
                r is None
            } else {
                r == Some(u)
            },
            None => r is None,
        },
{
    match configured {
        Some(u) => {
            if is_blank_str(u.as_str()) {
                None
            } else {
                Some(u)
            }
        },
        None => None,
    }
}

/// The region the worker connects to: the configured one, else `us-east-1`.
pub fn aws_region(configured: Option<String>) -> (r: String)
    ensures
        r@ == match configured {
            Some(x) => x@,
            None => "us-east-1"@,
        },
{
    match configured {
        Some(x) => x,
        None => String::from_str("us-east-1"),
    }
}

/// The endpoint the worker connects to instead of the default one: the
/// configured one, unless it is empty.
pub fn endpoint_override(configured: Option<String>) -> (r: Option<String>)
    ensures
        text_view(r) == match configured {
            Some(x) => if x@.len() > 0 {
                Some(x@)
            } else {
                None
            },
            None => None,
        },
{
    match configured {
        Some(x) => {
            if x.as_str().unicode_len() > 0 {
                Some(x)
            } else {
                None
            }
        },
        None => None,
    }
}

/// The message a queue entry carries: the notification itself when it
/// reads as one, else the one wrapped in a topic envelope.
pub fn notification_of(direct: Option<S3Notification>, wrapped: Option<S3Notification>) -> (r: Option<S3Notification>)
    ensures
        r == if direct is Some {
            direct
        } else {
            wrapped
        },
{
    match direct {
        Some(n) => Some(n),
        None => wrapped,
    }
}

/// The uploads a notification reports: the object of each record that names
/// one, in order.
pub open spec fn reported_uploads(records: Seq<S3NotificationRecord>) -> Seq<S3Entity>
    decreases records.len(),
{
    if records.len() == 0 {
        Seq::empty()
    } else {
        let prev = reported_uploads(records.drop_last());
        match records.last().s3 {
            Some(e) => prev.push(e),
            None => prev,
        }
    }
}

/// The uploads a notification reports.
pub fn uploads_of(notification: S3Notification) -> (r: Vec<S3Entity>)
    ensures
        r@ == reported_uploads(notification.records@),
{
    let mut out: Vec<S3Entity> = Vec::new();
    let ghost all = notification.records@;
    for record in it: notification.records.into_iter()
        invariant
            it.seq() == all,
            out@ == reported_uploads(all.take(it.index() as int)),
    {
        let ghost i = it.index();
        assert(all.take(i + 1).drop_last() =~= all.take(i as int));
        match record.s3 {
            Some(e) => out.push(e),
            None => {},
        }
    }
    assert(all.take(all.len() as int) =~= all);
    out
}

} // verus!
