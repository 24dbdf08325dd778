use vstd::prelude::*;

verus! {

/// The three chat commands. Each has its own per-user cooldown window.
#[derive(Clone, Copy, Debug, PartialEq, Eq, Structural)]
pub enum CommandKind {
    Llm,
    Img,
    Stats,
}

impl CommandKind {
    /// Cooldown window of the command, in time units.
    pub open spec fn spec_window(self) -> u64 {
        match self {
            CommandKind::Llm => 10,
            CommandKind::Img => 10,
            CommandKind::Stats => 1,
        }
    }

    /// Cooldown window of the command, in time units.
    pub fn window(&self) -> (r: u64)
        ensures
            r == self.spec_window(),
    {
        match self {
            CommandKind::Llm => 10,
            CommandKind::Img => 10,
            CommandKind::Stats => 1,
        }
    }
}

/// Last-invocation record for one user and one command.
struct CooldownEntry {
    user: u64,
    command: CommandKind,
    stamp: u64,
}

/// The key under which an entry is looked up.
spec fn key_of(e: CooldownEntry) -> (u64, CommandKind) {
    (e.user, e.command)
}

/// The map a sequence of entries stands for: each key to its stamp.
spec fn map_of(s: Seq<CooldownEntry>) -> Map<(u64, CommandKind), u64>
    decreases s.len(),
{
    if s.len() == 0 {
        Map::empty()
    } else {
        map_of(s.drop_last()).insert(key_of(s.last()), s.last().stamp)
    }
}

/// No two entries share a key.
spec fn unique_keys(s: Seq<CooldownEntry>) -> bool {
    forall|i: int, j: int|
        0 <= i < s.len() && 0 <= j < s.len() && i != j ==> key_of(s[i]) != key_of(s[j])
}

/// Whether a command from `user` at time `now` passes admission control,
/// given the recorded last invocations `m`: admitted exactly when the user
/// has no record for the command or the window has fully elapsed.
pub open spec fn spec_admits(
    m: Map<(u64, CommandKind), u64>,
    user: u64,
    command: CommandKind,
    now: u64,
) -> bool {
    ||| !m.contains_key((user, command))
    ||| m[(user, command)] + command.spec_window() <= now
}

proof fn lemma_map_of_domain(s: Seq<CooldownEntry>)
    ensures
        forall|k: (u64, CommandKind)|
            #[trigger] map_of(s).contains_key(k) <==> (exists|i: int|
                0 <= i < s.len() && key_of(#[trigger] s[i]) == k),
    decreases s.len(),
{
    if s.len() > 0 {
        lemma_map_of_domain(s.drop_last());
        assert(map_of(s) == map_of(s.drop_last()).insert(key_of(s.last()), s.last().stamp));
        assert forall|k: (u64, CommandKind)| #[trigger]
            map_of(s).contains_key(k) implies (exists|i: int|
            0 <= i < s.len() && key_of(#[trigger] s[i]) == k) by {
            if k == key_of(s.last()) {
                assert(key_of(s[s.len() - 1]) == k);
            } else {
                assert(map_of(s.drop_last()).contains_key(k));
                let i = choose|i: int|
                    0 <= i < s.drop_last().len() && key_of(#[trigger] s.drop_last()[i]) == k;
                assert(s.drop_last()[i] == s[i]);
                assert(key_of(s[i]) == k);
            }
        }
        assert forall|k: (u64, CommandKind)|
            (exists|i: int|
                0 <= i < s.len() && key_of(#[trigger] s[i]) == k) implies #[trigger] map_of(
            s,
        ).contains_key(k) by {
            let i = choose|i: int| 0 <= i < s.len() && key_of(#[trigger] s[i]) == k;
            if i < s.len() - 1 {
                assert(key_of(s.drop_last()[i]) == k);
            }
        }
    }
}

proof fn lemma_map_of_value(s: Seq<CooldownEntry>, i: int)
    requires
        unique_keys(s),
        0 <= i < s.len(),
    ensures
        map_of(s).contains_key(key_of(s[i])),
        map_of(s)[key_of(s[i])] == s[i].stamp,
    decreases s.len(),
{
    if i == s.len() - 1 {
    } else {
        assert(unique_keys(s.drop_last()));
        lemma_map_of_value(s.drop_last(), i);
        assert(key_of(s.last()) != key_of(s[i]));
    }
}

proof fn lemma_map_of_update(s: Seq<CooldownEntry>, i: int, e: CooldownEntry)
    requires
        unique_keys(s),
        0 <= i < s.len(),
        key_of(e) == key_of(s[i]),
    ensures
        map_of(s.update(i, e)) =~= map_of(s).insert(key_of(e), e.stamp),
    decreases s.len(),
{
    let t = s.update(i, e);
    if i == s.len() - 1 {
        assert(t.drop_last() =~= s.drop_last());
    } else {
        assert(unique_keys(s.drop_last()));
        assert(t.drop_last() =~= s.drop_last().update(i, e));
        lemma_map_of_update(s.drop_last(), i, e);
        assert(key_of(t.last()) == key_of(s.last()));
        assert(key_of(s.last()) != key_of(e));
    }
}

/// Per-user, per-command last-invocation times: the one piece of shared
/// mutable state. Check-and-update is a single operation on it, so no two
/// invocations of the same user within the window can both be admitted.
pub struct CooldownState {
    entries: Vec<CooldownEntry>,
}

impl CooldownState {
    /// The recorded last invocation time of each (user, command) pair.
    pub closed spec fn view(&self) -> Map<(u64, CommandKind), u64> {
        map_of(self.entries@)
    }

    /// Internal well-formedness: one entry per (user, command) pair.
    pub closed spec fn wf(&self) -> bool {
        unique_keys(self.entries@)
    }

    /// An empty state: no user has invoked anything yet.
    pub fn new() -> (r: CooldownState)
        ensures
            r.wf(),
            r@ == Map::<(u64, CommandKind), u64>::empty(),
    {
        CooldownState { entries: Vec::new() }
    }

    /// Atomic admission check: admits the invocation exactly when the user
    /// has no record for this command or the cooldown window has elapsed,
    /// and, if admitted, records `now` as the new last invocation in the
    /// same step. A rejected invocation leaves the state unchanged.
    pub fn check_and_update(&mut self, user: u64, command: CommandKind, now: u64) -> (admitted:
        bool)
        requires
            old(self).wf(),
        ensures
            final(self).wf(),
            admitted == spec_admits(old(self)@, user, command, now),
            admitted ==> final(self)@ == old(self)@.insert((user, command), now),
            !admitted ==> final(self)@ == old(self)@,
    {
        proof {
            lemma_map_of_domain(self.entries@);
        }
        let n = self.entries.len();
        let mut i: usize = 0;
        while i < n
            invariant
                self.entries@ == old(self).entries@,
                unique_keys(self.entries@),
                n == self.entries@.len(),
                0 <= i <= n,
                forall|j: int| 0 <= j < i ==> key_of(#[trigger] self.entries@[j]) != (user, command),
            decreases n - i,
        {
            if self.entries[i].user == user && self.entries[i].command == command {
                proof {
                    lemma_map_of_value(self.entries@, i as int);
                }
                let stamp = self.entries[i].stamp;
                let window = command.window();
                if now >= stamp && now - stamp >= window {
                    let ghost before = self.entries@;
                    self.entries[i] = CooldownEntry { user, command, stamp: now };
                    proof {
                        lemma_map_of_update(before, i as int, self.entries@[i as int]);
                    }
                    return true;
                } else {
                    return false;
                }
            }
            i += 1;
        }
        // No record yet: first invocation is always admitted.
        let ghost before = self.entries@;
        self.entries.push(CooldownEntry { user, command, stamp: now });
        proof {
            assert(self.entries@.drop_last() =~= before);
            assert forall|a: int, b: int|
                0 <= a < self.entries@.len() && 0 <= b < self.entries@.len() && a != b implies
                key_of(#[trigger] self.entries@[a]) != key_of(#[trigger] self.entries@[b]) by {
                if a < self.entries@.len() - 1 && b < self.entries@.len() - 1 {
                    assert(key_of(before[a]) != key_of(before[b]));
                }
            }
        }
        true
    }
}

/// A user issuing the same command twice within its cooldown window has the
/// second invocation rejected; once the window has elapsed, an invocation
/// is admitted again.
pub proof fn lemma_cooldown_window(
    m: Map<(u64, CommandKind), u64>,
    user: u64,
    command: CommandKind,
    t1: u64,
    t2: u64,
)
    requires
        spec_admits(m, user, command, t1),
    ensures
        t2 < t1 + command.spec_window() ==> !spec_admits(
            m.insert((user, command), t1),
            user,
            command,
            t2,
        ),
        t2 >= t1 + command.spec_window() ==> spec_admits(
            m.insert((user, command), t1),
            user,
            command,
            t2,
        ),
{
}

} // verus!
