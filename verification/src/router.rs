//! The interaction router: routes command-style events by their full command
//! path to exactly one registered handler, and adapts a handler's declared
//! argument slots from the payload's option list by name.

use vstd::prelude::*;

use crate::Snowflake;

verus! {

/// A command option value carried by an interaction payload. A numeric
/// option travels as its decimal literal, parsed at the edge, so the core
/// holds plain values only.
pub enum OptionValue {
    Str(String),
    Int(i64),
    Bool(bool),
    /// The decimal literal of a floating-point option.
    Num(String),
    /// A user, channel, role or other mentionable id.
    Id(Snowflake),
}

impl Clone for OptionValue {
    /// A clone is equal to the original.
    fn clone(&self) -> (r: OptionValue)
        ensures
            r == *self,
    {
        match self {
            OptionValue::Str(s) => OptionValue::Str(s.clone()),
            OptionValue::Int(v) => OptionValue::Int(*v),
            OptionValue::Bool(b) => OptionValue::Bool(*b),
            OptionValue::Num(s) => OptionValue::Num(s.clone()),
            OptionValue::Id(id) => OptionValue::Id(*id),
        }
    }
}

/// The value of the first option named `name`, if any: option lists may in
/// principle repeat a name, and the first occurrence wins.
pub open spec fn find_option(options: Seq<(String, OptionValue)>, name: Seq<char>) -> Option<
    OptionValue,
>
    decreases options.len(),
{
    if options.len() == 0 {
        None
    } else if options[0].0@ == name {
        Some(options[0].1)
    } else {
        find_option(options.drop_first(), name)
    }
}

/// Routes by hierarchical command path (subcommand segments joined into the
/// full path) to exactly one handler: registration enforces path uniqueness.
pub struct InteractionRouter {
    /// Registrations in registration order: (command path, handler id).
    pub entries: Vec<(String, u64)>,
}

impl InteractionRouter {
    /// Well-formedness: command paths are pairwise distinct, so at most one
    /// handler can match a given path.
    pub open spec fn wf(self) -> bool {
        forall|i: int, j: int|
            0 <= i < self.entries@.len() && 0 <= j < self.entries@.len()
                && #[trigger] self.entries@[i].0@ == #[trigger] self.entries@[j].0@ ==> i == j
    }

    /// Whether some handler is registered for this path.
    pub open spec fn has_path(self, path: Seq<char>) -> bool {
        exists|i: int| 0 <= i < self.entries@.len() && #[trigger] self.entries@[i].0@ == path
    }

    /// An empty router.
    pub fn new() -> (r: InteractionRouter)
        ensures
            r.entries@.len() == 0,
            r.wf(),
    {
        InteractionRouter { entries: Vec::new() }
    }

    /// Register the single handler for a command path. Returns whether the
    /// registration was accepted: a path already taken is refused, keeping
    /// exactly one handler per path.
    pub fn register(&mut self, path: String, handler: u64) -> (r: bool)
        requires
            old(self).wf(),
        ensures
            final(self).wf(),
            r == !old(self).has_path(path@),
            r ==> final(self).entries@ == old(self).entries@.push((path, handler)),
            !r ==> final(self).entries@ == old(self).entries@,
    {
        let taken = self.lookup(&path);
        match taken {
            Some(_) => false,
            None => {
                self.entries.push((path, handler));
                true
            },
        }
    }

    /// The handler registered for exactly this path: `Some` if and only if
    /// one is registered. `None` is the "unhandled command" outcome — a
    /// reported result, not a failure of the router.
    pub fn lookup(&self, path: &String) -> (r: Option<u64>)
        ensures
            match r {
                Some(h) => exists|i: int|
                    0 <= i < self.entries@.len() && #[trigger] self.entries@[i].0@ == path@
                        && self.entries@[i].1 == h,
                None => !self.has_path(path@),
            },
    {
        let mut i: usize = 0;
        while i < self.entries.len()
            invariant
                i <= self.entries@.len(),
                forall|j: int| 0 <= j < i ==> #[trigger] self.entries@[j].0@ != path@,
            decreases self.entries@.len() - i,
        {
            if self.entries[i].0 == *path {
                return Some(self.entries[i].1);
            }
            i = i + 1;
        }
        None
    }

    /// Adapt a handler's declared argument slots from the payload's option
    /// list by name: slot `k` receives the value of the first option named
    /// `declared[k]`. A declared name with no matching option makes the
    /// whole binding fail — the payload does not fit the handler's shape.
    pub fn bind_args(declared: &Vec<String>, options: &Vec<(String, OptionValue)>) -> (r: Option<
        Vec<OptionValue>,
    >)
        ensures
            match r {
                Some(vals) => {
                    &&& vals@.len() == declared@.len()
                    &&& forall|k: int|
                        0 <= k < declared@.len() ==> find_option(options@, declared@[k]@) == Some(
                            #[trigger] vals@[k],
                        )
                },
                None => exists|k: int|
                    0 <= k < declared@.len() && find_option(
                        options@,
                        #[trigger] declared@[k]@,
                    ) is None,
            },
    {
        let mut vals: Vec<OptionValue> = Vec::new();
        let mut k: usize = 0;
        while k < declared.len()
            invariant
                k <= declared@.len(),
                vals@.len() == k,
                forall|m: int|
                    0 <= m < k ==> find_option(options@, declared@[m]@) == Some(
                        #[trigger] vals@[m],
                    ),
            decreases declared@.len() - k,
        {
            let found = find_option_exec(options, &declared[k]);
            match found {
                Some(v) => {
                    vals.push(v);
                },
                None => {
                    return None;
                },
            }
            k = k + 1;
        }
        Some(vals)
    }
}

/// The full command path of a nested invocation: the command name followed
/// by each subcommand-group and subcommand name, separated by single spaces.
pub open spec fn joined_path(segments: Seq<Seq<char>>) -> Seq<char>
    decreases segments.len(),
{
    if segments.len() == 0 {
        Seq::empty()
    } else if segments.len() == 1 {
        segments[0]
    } else {
        joined_path(segments.drop_last()) + seq![' '] + segments.last()
    }
}

/// Join a command name and its subcommand segments into the exact path the
/// router keys by.
pub fn join_path(segments: &Vec<String>) -> (r: String)
    ensures
        r@ == joined_path(segments@.map_values(|s: String| s@)),
{
    let ghost mapped = segments@.map_values(|s: String| s@);
    let mut r = String::new();
    let mut i: usize = 0;
    proof {
        assert(mapped.take(0) =~= Seq::<Seq<char>>::empty());
    }
    while i < segments.len()
        invariant
            i <= segments@.len(),
            mapped == segments@.map_values(|s: String| s@),
            r@ == joined_path(mapped.take(i as int)),
        decreases segments@.len() - i,
    {
        proof {
            assert(mapped.take(i + 1).drop_last() =~= mapped.take(i as int));
            assert(mapped.take(i + 1).last() == mapped[i as int]);
            assert(mapped[i as int] == segments@[i as int]@);
            reveal_strlit(" ");
            assert(" "@ =~= seq![' ']);
        }
        if i > 0 {
            r.append(" ");
        }
        r.append(segments[i].as_str());
        i = i + 1;
    }
    proof {
        assert(mapped.take(mapped.len() as int) =~= mapped);
    }
    r
}

/// Scan the option list for the first option with this name.
fn find_option_exec(options: &Vec<(String, OptionValue)>, name: &String) -> (r: Option<
    OptionValue,
>)
    ensures
        r == find_option(options@, name@),
{
    let mut k: usize = 0;
    proof {
        assert(options@.skip(0) =~= options@);
    }
    while k < options.len()
        invariant
            k <= options@.len(),
            find_option(options@, name@) == find_option(options@.skip(k as int), name@),
        decreases options@.len() - k,
    {
        proof {
            assert(options@.skip(k as int).len() > 0);
            assert(options@.skip(k as int)[0] == options@[k as int]);
            assert(options@.skip(k as int).drop_first() =~= options@.skip(k + 1));
        }
        if options[k].0 == *name {
            return Some(options[k].1.clone());
        }
        k = k + 1;
    }
    proof {
        assert(options@.skip(options@.len() as int).len() == 0);
    }
    None
}

} // verus!
