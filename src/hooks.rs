//! The hook registry: breakpoints that this session owns, each with the
//! action it triggers, and the exit hooks paired with enter hooks.
use vstd::prelude::*;

verus! {

/// What a hook does when its breakpoint fires.
#[derive(Clone, Copy, Debug, PartialEq, Eq, Structural)]
pub enum HookAction {
    /// Entry of an allocation call: record the request.
    AllocationRequest,
    /// Return of an allocation call: resolve the request.
    AllocationReturn,
    /// Entry of a deallocation call: drop the record.
    Deallocation,
    /// Entry of a logged function: report its arguments.
    LogCall,
    /// Return of a logged function: report its result.
    LogReturn,
}

/// Where a hook stands in a call.
#[derive(Clone, Copy, Debug, PartialEq, Eq, Structural)]
pub enum HookKind {
    /// At a function's entry point.
    CallEnter,
    /// At the return site of a call of the enter hook `enter`.
    CallExit { enter: u128, return_address: u64 },
}

/// One breakpoint owned by the registry.
#[derive(Debug)]
pub struct HookEntry {
    /// The identity the host engine gave the breakpoint.
    pub id: u128,
    /// Enter or exit hook.
    pub kind: HookKind,
    /// What firing it does.
    pub action: HookAction,
    /// Whether an exit hook has been paired with this entry.
    pub exit_installed: bool,
    /// The monitored function's name, as given when it was installed.
    pub name: String,
}

/// Why the registry refused a change.
#[derive(Clone, Copy, Debug, PartialEq, Eq, Structural)]
pub enum HookError {
    /// A live entry already has this identity.
    DuplicateIdentity,
    /// No enter hook with this identity pairs with an exit hook.
    UnknownEnterHook,
    /// The enter hook already has an exit hook at this return site.
    ExitAlreadyInstalled,
}

/// What firing a known breakpoint asks of the caller.
#[derive(Clone, Copy, Debug, PartialEq, Eq, Structural)]
pub struct Fired {
    /// The hook's action.
    pub action: HookAction,
    /// Where an exit hook must be installed, when this call's return site has none.
    pub exit_site: Option<u64>,
}

/// The action of the exit hook paired with an enter hook of `action`, if any.
pub open spec fn exit_action_spec(action: HookAction) -> Option<HookAction> {
    match action {
        HookAction::AllocationRequest => Some(HookAction::AllocationReturn),
        HookAction::LogCall => Some(HookAction::LogReturn),
        _ => None,
    }
}

/// The action of the exit hook paired with an enter hook of `action`, if any.
pub fn exit_action(action: HookAction) -> (r: Option<HookAction>)
    ensures
        r == exit_action_spec(action),
{
    match action {
        HookAction::AllocationRequest => Some(HookAction::AllocationReturn),
        HookAction::LogCall => Some(HookAction::LogReturn),
        _ => None,
    }
}

/// Whether some entry has identity `id`.
pub open spec fn has_id(s: Seq<HookEntry>, id: u128) -> bool {
    exists|k: int| 0 <= k < s.len() && (#[trigger] s[k]).id == id
}

/// Whether the enter hook `enter` has an exit hook at `return_address`.
pub open spec fn has_exit(s: Seq<HookEntry>, enter: u128, return_address: u64) -> bool {
    exists|k: int|
        0 <= k < s.len() && (#[trigger] s[k]).kind == (HookKind::CallExit { enter, return_address })
}

/// No two entries share an identity, and no two exit hooks share an enter
/// hook and a return site.
pub open spec fn entries_wf(s: Seq<HookEntry>) -> bool {
    &&& forall|i: int, j: int|
        0 <= i < s.len() && 0 <= j < s.len() && i != j ==> (#[trigger] s[i]).id != (#[trigger] s[j]).id
    &&& forall|i: int, j: int|
        0 <= i < s.len() && 0 <= j < s.len() && i != j && (#[trigger] s[i]).kind is CallExit
            ==> s[i].kind != (#[trigger] s[j]).kind
}

/// Index of the first entry from `i` on with identity `id`.
pub open spec fn index_of(s: Seq<HookEntry>, id: u128, i: int) -> Option<int>
    decreases s.len() - i,
{
    if i < 0 || i >= s.len() {
        None
    } else if s[i].id == id {
        Some(i)
    } else {
        index_of(s, id, i + 1)
    }
}

/// The entry with identity `id`, if any.
pub open spec fn entry_spec(s: Seq<HookEntry>, id: u128) -> Option<HookEntry> {
    match index_of(s, id, 0) {
        Some(i) => Some(s[i]),
        None => None,
    }
}

/// The registry after installing an enter hook.
pub open spec fn install_spec(s: Seq<HookEntry>, id: u128, action: HookAction, name: String) -> Result<
    Seq<HookEntry>,
    HookError,
> {
    if has_id(s, id) {
        Err(HookError::DuplicateIdentity)
    } else {
        Ok(s.push(HookEntry { id, kind: HookKind::CallEnter, action, exit_installed: false, name }))
    }
}

/// What firing breakpoint `id`, stopped in a call that returns to
/// `return_address`, asks of the caller.
pub open spec fn fire_spec(s: Seq<HookEntry>, id: u128, return_address: u64) -> Option<Fired> {
    match entry_spec(s, id) {
        Some(e) => Some(
            Fired {
                action: e.action,
                exit_site: if e.kind == HookKind::CallEnter && exit_action_spec(e.action) is Some
                    && !has_exit(s, id, return_address) {
                    Some(return_address)
                } else {
                    None
                },
            },
        ),
        None => None,
    }
}

/// The registry after pairing the enter hook `enter` with the exit hook
/// `exit_id` at `return_address`.
pub open spec fn install_exit_spec(s: Seq<HookEntry>, exit_id: u128, enter: u128, return_address: u64) -> Result<
    Seq<HookEntry>,
    HookError,
> {
    if has_id(s, exit_id) {
        Err(HookError::DuplicateIdentity)
    } else {
        match index_of(s, enter, 0) {
            Some(i) => if s[i].kind != HookKind::CallEnter || exit_action_spec(s[i].action) is None {
                Err(HookError::UnknownEnterHook)
            } else if has_exit(s, enter, return_address) {
                Err(HookError::ExitAlreadyInstalled)
            } else {
                Ok(
                    s.update(i, HookEntry { exit_installed: true, ..s[i] }).push(
                        HookEntry {
                            id: exit_id,
                            kind: HookKind::CallExit { enter, return_address },
                            action: exit_action_spec(s[i].action)->Some_0,
                            exit_installed: true,
                            name: s[i].name,
                        },
                    ),
                )
            },
            None => Err(HookError::UnknownEnterHook),
        }
    }
}

proof fn lemma_index_of_bounds(s: Seq<HookEntry>, id: u128, i: int)
    requires
        0 <= i,
    ensures
        match index_of(s, id, i) {
            Some(j) => i <= j < s.len() && s[j].id == id && forall|k: int|
                i <= k < j ==> (#[trigger] s[k]).id != id,
            None => forall|k: int| i <= k < s.len() ==> (#[trigger] s[k]).id != id,
        },
    decreases s.len() - i,
{
    if i < s.len() && s[i].id != id {
        lemma_index_of_bounds(s, id, i + 1);
    }
}

proof fn lemma_install_exit_wf(s: Seq<HookEntry>, exit_id: u128, enter: u128, return_address: u64)
    requires
        entries_wf(s),
        install_exit_spec(s, exit_id, enter, return_address) is Ok,
    ensures
        ({
            let t = install_exit_spec(s, exit_id, enter, return_address)->Ok_0;
            let i = index_of(s, enter, 0)->Some_0;
            &&& entries_wf(t)
            &&& t.len() == s.len() + 1
            &&& forall|k: int| 0 <= k < s.len() ==> (#[trigger] t[k]).id == s[k].id && t[k].kind == s[k].kind
                && t[k].action == s[k].action
            &&& t[s.len() as int].kind == (HookKind::CallExit { enter, return_address })
            &&& t[s.len() as int].id == exit_id
            &&& 0 <= i < s.len() && s[i].id == enter
        }),
{
    lemma_index_of_bounds(s, enter, 0);
    let i = index_of(s, enter, 0)->Some_0;
    let t = install_exit_spec(s, exit_id, enter, return_address)->Ok_0;
    let n = s.len() as int;
    assert forall|a: int, b: int|
        0 <= a < t.len() && 0 <= b < t.len() && a != b implies (#[trigger] t[a]).id != (#[trigger] t[b]).id by {
        if a < n && b < n {
            assert(s[a].id != s[b].id);
        } else if a == n {
            assert(t[b].id == s[b].id);
            assert(s[b].id != exit_id);
        } else {
            assert(t[a].id == s[a].id);
            assert(s[a].id != exit_id);
        }
    }
    assert forall|a: int, b: int|
        0 <= a < t.len() && 0 <= b < t.len() && a != b && (#[trigger] t[a]).kind is CallExit
            implies t[a].kind != (#[trigger] t[b]).kind by {
        if a < n && b < n {
            assert(s[a].kind != s[b].kind);
        } else if a == n {
            assert(t[b].kind == s[b].kind);
        } else {
            assert(t[a].kind == s[a].kind);
        }
    }
}

/// An enter hook gets one exit hook per return site: once it is installed,
/// the same call site asks for no other, a second installation there is
/// refused, and the registry holds exactly one exit entry for that site.
pub proof fn lemma_exit_installed_once(
    s: Seq<HookEntry>,
    first: u128,
    second: u128,
    enter: u128,
    return_address: u64,
)
    requires
        entries_wf(s),
        install_exit_spec(s, first, enter, return_address) is Ok,
    ensures
        ({
            let t = install_exit_spec(s, first, enter, return_address)->Ok_0;
            &&& entries_wf(t)
            &&& has_exit(t, enter, return_address)
            &&& forall|i: int, j: int|
                0 <= i < t.len() && 0 <= j < t.len() && (#[trigger] t[i]).kind == (HookKind::CallExit {
                    enter,
                    return_address,
                }) && (#[trigger] t[j]).kind == (HookKind::CallExit { enter, return_address }) ==> i == j
            &&& fire_spec(t, enter, return_address) matches Some(f) && f.exit_site is None
            &&& install_exit_spec(t, second, enter, return_address) is Err
        }),
{
    lemma_install_exit_wf(s, first, enter, return_address);
    let t = install_exit_spec(s, first, enter, return_address)->Ok_0;
    let n = s.len() as int;
    assert(t[n].kind == (HookKind::CallExit { enter, return_address }));
    assert(has_exit(t, enter, return_address));
    let i = index_of(s, enter, 0)->Some_0;
    assert(t[i].id == enter);
    lemma_index_of_bounds(t, enter, 0);
    let j = index_of(t, enter, 0)->Some_0;
    assert(t[j].id == enter);
    assert(i == j);
}

/// The breakpoints this session owns, in the order they were installed.
pub struct HookRegistry {
    entries: Vec<HookEntry>,
}

impl View for HookRegistry {
    type V = Seq<HookEntry>;

    closed spec fn view(&self) -> Seq<HookEntry> {
        self.entries@
    }
}

impl HookRegistry {
    /// The registry's invariant.
    pub open spec fn wf(&self) -> bool {
        entries_wf(self@)
    }

    /// An empty registry.
    pub fn new() -> (r: Self)
        ensures
            r@ == Seq::<HookEntry>::empty(),
            r.wf(),
    {
        HookRegistry { entries: Vec::new() }
    }

    /// Number of live entries.
    pub fn len(&self) -> (r: usize)
        ensures
            r == self@.len(),
    {
        self.entries.len()
    }

    /// The entry at `index`, in installation order.
    pub fn get(&self, index: usize) -> (r: Option<&HookEntry>)
        ensures
            r == (if index < self@.len() { Some(&self@[index as int]) } else { None }),
    {
        if index < self.entries.len() {
            Some(&self.entries[index])
        } else {
            None
        }
    }

    fn find(&self, id: u128) -> (r: Option<usize>)
        ensures
            match r {
                Some(i) => i < self@.len() && self@[i as int].id == id && index_of(self@, id, 0)
                    == Some(i as int),
                None => index_of(self@, id, 0) is None && !has_id(self@, id),
            },
    {
        proof {
            lemma_index_of_bounds(self@, id, 0);
        }
        let mut i: usize = 0;
        while i < self.entries.len()
            invariant
                0 <= i <= self.entries@.len(),
                index_of(self.entries@, id, 0) == index_of(self.entries@, id, i as int),
            decreases self.entries.len() - i,
        {
            if self.entries[i].id == id {
                return Some(i);
            }
            i += 1;
        }
        None
    }

    /// Whether breakpoint `id` belongs to this registry.
    pub fn is_monitored(&self, id: u128) -> (r: bool)
        ensures
            r == has_id(self@, id),
    {
        proof {
            lemma_index_of_bounds(self@, id, 0);
        }
        self.find(id).is_some()
    }

    /// The action of breakpoint `id`, if it belongs to this registry.
    pub fn action_of(&self, id: u128) -> (r: Option<HookAction>)
        ensures
            r == (match entry_spec(self@, id) {
                Some(e) => Some(e.action),
                None => None,
            }),
    {
        match self.find(id) {
            Some(i) => Some(self.entries[i].action),
            None => None,
        }
    }

    /// The name given to breakpoint `id` when its hook was installed.
    pub fn name_of(&self, id: u128) -> (r: Option<&String>)
        ensures
            r == (match entry_spec(self@, id) {
                Some(e) => Some(&e.name),
                None => None,
            }),
    {
        match self.find(id) {
            Some(i) => Some(&self.entries[i].name),
            None => None,
        }
    }

    /// Whether the enter hook `enter` already has an exit hook at `return_address`.
    pub fn is_address_hooked(&self, enter: u128, return_address: u64) -> (r: bool)
        ensures
            r == has_exit(self@, enter, return_address),
    {
        let mut i: usize = 0;
        while i < self.entries.len()
            invariant
                0 <= i <= self.entries@.len(),
                forall|k: int|
                    0 <= k < i ==> (#[trigger] self.entries@[k]).kind != (HookKind::CallExit {
                        enter,
                        return_address,
                    }),
            decreases self.entries.len() - i,
        {
            if let HookKind::CallExit { enter: e, return_address: a } = self.entries[i].kind {
                if e == enter && a == return_address {
                    proof {
                        assert(self@[i as int].kind == HookKind::CallExit { enter, return_address });
                    }
                    return true;
                }
            }
            i += 1;
        }
        false
    }

    /// Install the enter hook `id`; refused when `id` is already live.
    pub fn install(&mut self, id: u128, action: HookAction, name: String) -> (r: Result<(), HookError>)
        requires
            old(self).wf(),
        ensures
            final(self).wf(),
            match install_spec(old(self)@, id, action, name) {
                Ok(s) => r is Ok && final(self)@ == s,
                Err(e) => r == Err::<(), HookError>(e) && final(self)@ == old(self)@,
            },
    {
        if self.is_monitored(id) {
            return Err(HookError::DuplicateIdentity);
        }
        self.entries.push(HookEntry { id, kind: HookKind::CallEnter, action, exit_installed: false, name });
        Ok(())
    }

    /// What firing breakpoint `id`, stopped in a call that returns to
    /// `return_address`, asks of the caller: `None` when `id` is not ours.
    /// The registry itself is left as it is; the exit hook, when one is
    /// asked for, is added afterwards by [`HookRegistry::install_exit`].
    pub fn on_fire(&self, id: u128, return_address: u64) -> (r: Option<Fired>)
        ensures
            r == fire_spec(self@, id, return_address),
    {
        match self.find(id) {
            Some(i) => {
                let action = self.entries[i].action;
                let wants_exit = match self.entries[i].kind {
                    HookKind::CallEnter => exit_action(action).is_some(),
                    HookKind::CallExit { .. } => false,
                };
                let exit_site = if wants_exit && !self.is_address_hooked(id, return_address) {
                    Some(return_address)
                } else {
                    None
                };
                Some(Fired { action, exit_site })
            },
            None => None,
        }
    }

    /// Pair the enter hook `enter` with the new exit hook `exit_id` at
    /// `return_address`, and mark the enter hook as having its exit.
    pub fn install_exit(&mut self, exit_id: u128, enter: u128, return_address: u64) -> (r: Result<
        (),
        HookError,
    >)
        requires
            old(self).wf(),
        ensures
            final(self).wf(),
            match install_exit_spec(old(self)@, exit_id, enter, return_address) {
                Ok(s) => r is Ok && final(self)@ == s,
                Err(e) => r == Err::<(), HookError>(e) && final(self)@ == old(self)@,
            },
    {
        if self.is_monitored(exit_id) {
            return Err(HookError::DuplicateIdentity);
        }
        let i = match self.find(enter) {
            Some(i) => i,
            None => {
                return Err(HookError::UnknownEnterHook);
            },
        };
        proof {
            lemma_index_of_bounds(self@, enter, 0);
        }
        let action = match self.entries[i].kind {
            HookKind::CallEnter => match exit_action(self.entries[i].action) {
                Some(a) => a,
                None => {
                    return Err(HookError::UnknownEnterHook);
                },
            },
            HookKind::CallExit { .. } => {
                return Err(HookError::UnknownEnterHook);
            },
        };
        if self.is_address_hooked(enter, return_address) {
            return Err(HookError::ExitAlreadyInstalled);
        }
        let name = self.entries[i].name.clone();
        let ghost old_entries = self.entries@;
        self.entries[i].exit_installed = true;
        self.entries.push(
            HookEntry {
                id: exit_id,
                kind: HookKind::CallExit { enter, return_address },
                action,
                exit_installed: true,
                name,
            },
        );
        proof {
            let s = old_entries.update(i as int, HookEntry { exit_installed: true, ..old_entries[i as int] });
            assert(self.entries@[i as int] == s[i as int]);
            assert(self.entries@ =~= s.push(self.entries@.last()));
            assert forall|k: int| 0 <= k < old_entries.len() implies #[trigger] self.entries@[k].kind
                == old_entries[k].kind && self.entries@[k].id == old_entries[k].id by {}
        }
        Ok(())
    }

    /// Empty the registry and return the identities of the breakpoints it
    /// held, in installation order, for the caller to remove from the host.
    pub fn remove_all(&mut self) -> (r: Vec<u128>)
        ensures
            final(self)@ == Seq::<HookEntry>::empty(),
            final(self).wf(),
            r@ == old(self)@.map_values(|e: HookEntry| e.id),
    {
        let mut ids: Vec<u128> = Vec::new();
        let mut i: usize = 0;
        while i < self.entries.len()
            invariant
                0 <= i <= self.entries@.len(),
                self.entries@ == old(self)@,
                ids@ == self.entries@.subrange(0, i as int).map_values(|e: HookEntry| e.id),
            decreases self.entries.len() - i,
        {
            ids.push(self.entries[i].id);
            i += 1;
            assert(self.entries@.subrange(0, i as int) =~= self.entries@.subrange(0, i - 1).push(
                self.entries@[i - 1],
            ));
        }
        assert(self.entries@.subrange(0, i as int) =~= self.entries@);
        self.entries = Vec::new();
        ids
    }
}

} // verus!
