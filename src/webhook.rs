//! Choosing the webhook and the target that messages are cloned through

use vstd::prelude::*;

use crate::error::Error;
use crate::thread;
use crate::MessageSource;

verus! {

/// A webhook of a channel, as cloning reads it
#[derive(Debug)]
pub struct WebhookRecord {
    /// Webhook's ID
    pub id: u64,
    /// Name of the webhook, if any
    pub name: Option<String>,
    /// Token to execute the webhook with, if the bot can see it
    pub token: Option<String>,
}

/// Whether the webhook can be executed and is called `name`
pub open spec fn is_usable(w: WebhookRecord, name: Seq<char>) -> bool {
    &&& w.token is Some
    &&& w.name matches Some(n) && n@ == name
}

/// Where an execution posts the cloned message
#[derive(Debug, PartialEq, Eq)]
pub enum ExecTarget {
    /// The channel of the webhook
    Channel,
    /// The thread with this ID
    Thread(u64),
    /// A new forum post with this name
    NewPost(String),
}

impl MessageSource {
    /// Position of the first webhook that can be executed and is called as
    /// [`MessageSource::webhook_name`] set; `None` if there is none, and one
    /// has to be created
    pub fn find_webhook(&self, webhooks: &Vec<WebhookRecord>) -> (r: Option<usize>)
        ensures
            r is None ==> forall|i: int|
                0 <= i < webhooks@.len() ==> !is_usable(#[trigger] webhooks@[i], self.webhook_name@),
            r matches Some(i) ==> i < webhooks@.len() && is_usable(webhooks@[i as int], self.webhook_name@)
                && forall|j: int| 0 <= j < i ==> !is_usable(#[trigger] webhooks@[j], self.webhook_name@),
    {
        let mut i: usize = 0;
        while i < webhooks.len()
            invariant
                i <= webhooks.len(),
                forall|j: int| 0 <= j < i ==> !is_usable(#[trigger] webhooks@[j], self.webhook_name@),
            decreases webhooks.len() - i,
        {
            let w = &webhooks[i];
            if w.token.is_some() {
                if let Some(name) = &w.name {
                    if *name == self.webhook_name {
                        return Some(i);
                    }
                }
            }
            i = i + 1;
        }
        None
    }

    /// Keeps the webhook to clone messages with, unless one is kept already
    pub fn set_webhook(&mut self, id: u64, token: String)
        ensures
            old(self).webhook is None ==> final(self).webhook == Some((id, token)),
            old(self).webhook is Some ==> final(self).webhook == old(self).webhook,
    {
        if self.webhook.is_none() {
            self.webhook = Some((id, token));
        }
    }

    /// Where executing the webhook posts the message: the thread the message
    /// is in, a new post named as the source's post when the source started
    /// a forum post, the webhook's channel otherwise
    ///
    /// # Errors
    ///
    /// Returns [`Error::MissingThreadName`] if the source's forum post has no
    /// name
    pub fn exec_target(&self) -> (r: Result<ExecTarget, Error>)
        ensures
            self.thread_info matches thread::Info::In(id) ==> r == Ok::<ExecTarget, Error>(
                ExecTarget::Thread(id),
            ),
            self.thread_info matches thread::Info::CreatedPost(t) ==> (match t.name {
                Some(name) => (r matches Ok(ExecTarget::NewPost(n)) && n@ == name@),
                None => r == Err::<ExecTarget, Error>(Error::MissingThreadName),
            }),
            !(self.thread_info is In || self.thread_info is CreatedPost) ==> r == Ok::<
                ExecTarget,
                Error,
            >(ExecTarget::Channel),
    {
        match &self.thread_info {
            thread::Info::In(id) => Ok(ExecTarget::Thread(*id)),
            thread::Info::CreatedPost(t) => match &t.name {
                Some(name) => Ok(ExecTarget::NewPost(name.clone())),
                None => Err(Error::MissingThreadName),
            },
            _ => Ok(ExecTarget::Channel),
        }
    }
}

} // verus!
