use vstd::prelude::*;

verus! {

/// What the argument parser saw for one option: its name and the literal
/// values that followed it (none when it was given bare).
pub struct MatchedArg {
    name: String,
    values: Vec<String>,
}

impl View for MatchedArg {
    type V = (Seq<char>, Seq<Seq<char>>);

    closed spec fn view(&self) -> (Seq<char>, Seq<Seq<char>>) {
        (self.name@, self.values.deep_view())
    }
}

/// The options that the argument parser found on the command line, in the
/// order they were recorded. The library only reads it.
pub struct Matches {
    entries: Vec<MatchedArg>,
}

impl View for Matches {
    type V = Seq<(Seq<char>, Seq<Seq<char>>)>;

    closed spec fn view(&self) -> Seq<(Seq<char>, Seq<Seq<char>>)> {
        self.entries@.map_values(|e: MatchedArg| e@)
    }
}

/// The option named `name` occurs among the recorded options.
pub open spec fn occurs(m: Seq<(Seq<char>, Seq<Seq<char>>)>, name: Seq<char>) -> bool {
    exists|i: int| 0 <= i < m.len() && #[trigger] m[i].0 == name
}

/// The literal value of the option named `name`: the first value of its first
/// record, if that record has one.
pub open spec fn literal_value(m: Seq<(Seq<char>, Seq<Seq<char>>)>, name: Seq<char>) -> Option<
    Seq<char>,
>
    decreases m.len(),
{
    if m.len() == 0 {
        None
    } else if m[0].0 == name {
        if m[0].1.len() > 0 {
            Some(m[0].1[0])
        } else {
            None
        }
    } else {
        literal_value(m.drop_first(), name)
    }
}

impl Matches {
    /// No options recorded.
    pub fn new() -> (r: Matches)
        ensures
            r@ == Seq::<(Seq<char>, Seq<Seq<char>>)>::empty(),
    {
        let r = Matches { entries: Vec::new() };
        assert(r@ =~= Seq::<(Seq<char>, Seq<Seq<char>>)>::empty());
        r
    }

    /// Records that the option `name` was given, followed by `values`.
    pub fn push(&mut self, name: String, values: Vec<String>)
        ensures
            final(self)@ == old(self)@.push((name@, values.deep_view())),
    {
        let ghost added = (name@, values.deep_view());
        self.entries.push(MatchedArg { name, values });
        assert(self@ =~= old(self)@.push(added));
    }

    /// Whether the option `name` was given, with or without a value.
    pub fn is_present(&self, name: &str) -> (r: bool)
        ensures
            r == occurs(self@, name@),
    {
        let key = name.to_owned();
        let mut i: usize = 0;
        while i < self.entries.len()
            invariant
                0 <= i <= self.entries@.len(),
                key@ == name@,
                forall|j: int| 0 <= j < i ==> #[trigger] self@[j].0 != name@,
            decreases self.entries@.len() - i,
        {
            if self.entries[i].name == key {
                assert(self@[i as int].0 == name@);
                return true;
            }
            i = i + 1;
        }
        assert forall|j: int| 0 <= j < self@.len() implies #[trigger] self@[j].0 != name@ by {}
        false
    }

    /// The literal value of the option `name`: none when the option is
    /// absent or was given bare.
    pub fn value_of(&self, name: &str) -> (r: Option<String>)
        ensures
            r.deep_view() == literal_value(self@, name@),
    {
        let key = name.to_owned();
        let mut i: usize = 0;
        assert(self@.subrange(0, self@.len() as int) =~= self@);
        while i < self.entries.len()
            invariant
                0 <= i <= self.entries@.len(),
                key@ == name@,
                literal_value(self@, name@) == literal_value(
                    self@.subrange(i as int, self@.len() as int),
                    name@,
                ),
            decreases self.entries@.len() - i,
        {
            let ghost rest = self@.subrange(i as int, self@.len() as int);
            assert(rest[0] == self@[i as int]);
            if self.entries[i].name == key {
                if self.entries[i].values.len() > 0 {
                    return Some(self.entries[i].values[0].clone());
                }
                return None;
            }
            assert(rest.drop_first() =~= self@.subrange(i + 1, self@.len() as int));
            i = i + 1;
        }
        None
    }
}

} // verus!
