use vstd::prelude::*;
use crate::media_path::MediaPath;

verus! {

/// Where the platform hook that delivers "open this file" requests stands.
/// It is tried once per process.
#[derive(Clone, Debug, PartialEq, Eq)]
pub enum HookState {
    NotAttempted,
    Installing,
    Installed,
    Failed(String),
}

/// The process-wide open-file bridge: the one-time hook installation and the
/// queue of paths the platform asked to open, kept until drained.
pub struct OpenFileBridge {
    pub hook: HookState,
    pub queue: Vec<MediaPath>,
}

impl OpenFileBridge {
    pub fn new() -> (r: Self)
        ensures
            r.hook == HookState::NotAttempted,
            r.queue@.len() == 0,
    {
        OpenFileBridge { hook: HookState::NotAttempted, queue: Vec::new() }
    }

    /// Claims the installation: true, and the hook marked as being
    /// installed, only on the first call; every later call returns false and
    /// changes nothing.
    pub fn claim_install(&mut self) -> (r: bool)
        ensures
            r == (old(self).hook == HookState::NotAttempted),
            r ==> final(self).hook == HookState::Installing,
            !r ==> final(self).hook == old(self).hook,
            final(self).queue == old(self).queue,
    {
        match self.hook {
            HookState::NotAttempted => {
                self.hook = HookState::Installing;
                true
            },
            _ => false,
        }
    }

    /// Records how the claimed installation went. The outcome is final:
    /// there is no second attempt.
    pub fn finish_install(&mut self, error: Option<String>)
        ensures
            old(self).hook == HookState::Installing ==> final(self).hook == match error {
                None => HookState::Installed,
                Some(e) => HookState::Failed(e),
            },
            old(self).hook != HookState::Installing ==> final(self).hook == old(self).hook,
            final(self).queue == old(self).queue,
    {
        if let HookState::Installing = self.hook {
            self.hook = match error {
                None => HookState::Installed,
                Some(e) => HookState::Failed(e),
            };
        }
    }

    /// The installation's error, if it failed.
    pub fn install_error(&self) -> (r: Option<String>)
        ensures
            r == match self.hook {
                HookState::Failed(e) => Some(e),
                _ => None,
            },
    {
        match &self.hook {
            HookState::Failed(e) => Some(e.clone()),
            _ => None,
        }
    }

    /// Queues a path the platform asked to open.
    pub fn queue_opened_file(&mut self, path: MediaPath)
        ensures
            final(self).queue@ == old(self).queue@.push(path),
            final(self).hook == old(self).hook,
    {
        self.queue.push(path);
    }

    /// Hands over every queued path, oldest first, and empties the queue.
    pub fn take_opened_files(&mut self) -> (r: Vec<MediaPath>)
        ensures
            r@ == old(self).queue@,
            final(self).queue@.len() == 0,
            final(self).hook == old(self).hook,
    {
        self.queue.split_off(0)
    }
}

/// The start-up step that needs doing before the first window: claiming the
/// open-file hook installation. True when the caller is to install it now.
pub fn install_startup_integrations(bridge: &mut OpenFileBridge) -> (r: bool)
    ensures
        r == (old(bridge).hook == HookState::NotAttempted),
        r ==> final(bridge).hook == HookState::Installing,
        !r ==> final(bridge).hook == old(bridge).hook,
        final(bridge).queue == old(bridge).queue,
{
    bridge.claim_install()
}

} // verus!
