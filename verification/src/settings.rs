use vstd::prelude::*;
use crate::chars::clone_opt_string;

verus! {

/// User-supplied override paths for the runtime binary, the package-manager
/// entry point, and the cache directory. Any unset field falls back to the
/// computed default. A value is immutable once constructed; later updates
/// supersede it wholesale, they are never merged field by field.
pub struct NodeRuntimeSettings {
    /// Override path of the runtime binary.
    pub node: Option<String>,
    /// Override path of the package-manager entry point.
    pub npm: Option<String>,
    /// Override path of the cache directory.
    pub cache: Option<String>,
}

/// The mathematical value of a `NodeRuntimeSettings`: each override as an
/// optional character sequence.
#[verifier::ext_equal]
pub struct SettingsView {
    pub node: Option<Seq<char>>,
    pub npm: Option<Seq<char>>,
    pub cache: Option<Seq<char>>,
}

impl View for NodeRuntimeSettings {
    type V = SettingsView;

    open spec fn view(&self) -> SettingsView {
        SettingsView { node: self.node.deep_view(), npm: self.npm.deep_view(), cache: self.cache.deep_view() }
    }
}

impl DeepView for NodeRuntimeSettings {
    type V = SettingsView;

    open spec fn deep_view(&self) -> SettingsView {
        self.view()
    }
}

/// The settings value with every override unset.
pub open spec fn empty_settings() -> SettingsView {
    SettingsView { node: None, npm: None, cache: None }
}

impl Default for NodeRuntimeSettings {
    /// The default settings leave every override unset.
    fn default() -> (r: Self)
        ensures
            r@ == empty_settings(),
    {
        NodeRuntimeSettings { node: None, npm: None, cache: None }
    }
}

impl NodeRuntimeSettings {
    /// Copies a settings value, preserving every field.
    pub fn duplicate(&self) -> (r: Self)
        ensures
            r@ == self@,
    {
        let r = NodeRuntimeSettings {
            node: clone_opt_string(&self.node),
            npm: clone_opt_string(&self.npm),
            cache: clone_opt_string(&self.cache),
        };
        proof {
            assert(r@ =~= self@);
        }
        r
    }
}

/// Accepts configuration updates from any caller without blocking, and
/// applies them lazily: a published update only becomes the effective value
/// when the next operation drains the queue, never mid-operation.
pub struct ConfigurationChannel {
    current: NodeRuntimeSettings,
    pending: Vec<NodeRuntimeSettings>,
}

impl ConfigurationChannel {
    /// The effective settings value, as last drained.
    pub closed spec fn current_spec(&self) -> SettingsView {
        self.current@
    }

    /// The queue of published but not yet applied updates, oldest first.
    pub closed spec fn pending_spec(&self) -> Seq<SettingsView> {
        self.pending.deep_view()
    }

    /// A fresh channel: default settings, nothing pending.
    pub fn new() -> (r: Self)
        ensures
            r.current_spec() == empty_settings(),
            r.pending_spec() == Seq::<SettingsView>::empty(),
    {
        ConfigurationChannel { current: NodeRuntimeSettings::default(), pending: Vec::new() }
    }

    /// Returns a copy of the effective settings value.
    pub fn current(&self) -> (r: NodeRuntimeSettings)
        ensures
            r@ == self.current_spec(),
    {
        self.current.duplicate()
    }

    /// Publishes a new settings value. The effective value is untouched, so
    /// an operation already in flight is not affected; the update is queued
    /// for the next drain.
    pub fn configure(&mut self, settings: NodeRuntimeSettings)
        ensures
            final(self).current_spec() == old(self).current_spec(),
            final(self).pending_spec() == old(self).pending_spec().push(settings@),
    {
        self.pending.push(settings);
        proof {
            assert(self.pending.deep_view() =~= old(self).pending.deep_view().push(settings@));
        }
    }

    /// Applies every pending update in arrival order; the last one wins as
    /// the new effective value. With nothing pending the effective value is
    /// unchanged.
    pub fn drain(&mut self)
        ensures
            final(self).pending_spec() == Seq::<SettingsView>::empty(),
            old(self).pending_spec().len() > 0 ==> final(self).current_spec() == old(
                self,
            ).pending_spec().last(),
            old(self).pending_spec().len() == 0 ==> final(self).current_spec() == old(
                self,
            ).current_spec(),
    {
        if self.pending.len() > 0 {
            if let Some(last) = self.pending.pop() {
                self.current = last;
            }
        }
        self.pending = Vec::new();
        proof {
            assert(self.pending.deep_view() =~= Seq::<SettingsView>::empty());
        }
    }
}

} // verus!
