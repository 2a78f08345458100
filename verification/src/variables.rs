use vstd::prelude::*;

verus! {

/// The value of a user-defined variable. A number is kept as the text that
/// wrote it.
#[derive(Clone, Debug, PartialEq, Eq)]
pub enum Value {
    Bool(bool),
    Number(String),
    Text(String),
    Null,
}

/// A `Value` with its texts as character sequences.
pub enum ValueView {
    Bool(bool),
    Number(Seq<char>),
    Text(Seq<char>),
    Null,
}

impl View for Value {
    type V = ValueView;

    open spec fn view(&self) -> ValueView {
        match *self {
            Value::Bool(b) => ValueView::Bool(b),
            Value::Number(s) => ValueView::Number(s@),
            Value::Text(s) => ValueView::Text(s@),
            Value::Null => ValueView::Null,
        }
    }
}

impl Value {
    /// A copy with the same view.
    pub fn duplicate(&self) -> (r: Value)
        ensures
            r@ == self@,
    {
        match self {
            Value::Bool(b) => Value::Bool(*b),
            Value::Number(s) => Value::Number(s.clone()),
            Value::Text(s) => Value::Text(s.clone()),
            Value::Null => Value::Null,
        }
    }
}

/// One variable given a value.
#[derive(Clone, Debug, PartialEq, Eq)]
pub struct Assignment {
    pub name: String,
    pub value: Value,
}

/// An `Assignment` with its texts as character sequences.
pub struct AssignmentView {
    pub name: Seq<char>,
    pub value: ValueView,
}

impl View for Assignment {
    type V = AssignmentView;

    open spec fn view(&self) -> AssignmentView {
        AssignmentView { name: self.name@, value: self.value@ }
    }
}

impl Assignment {
    /// A copy with the same view.
    pub fn duplicate(&self) -> (r: Assignment)
        ensures
            r@ == self@,
    {
        Assignment { name: self.name.clone(), value: self.value.duplicate() }
    }
}

/// The views of a list of assignments, in the same order.
pub open spec fn assignment_views(entries: Seq<Assignment>) -> Seq<AssignmentView> {
    Seq::new(entries.len(), |i: int| entries[i]@)
}

/// Whether entry `i` of `entries` assigns the variable `name`.
pub open spec fn assigns(entries: Seq<Assignment>, i: int, name: Seq<char>) -> bool {
    0 <= i < entries.len() && entries[i].name@ == name
}

/// Whether no two entries assign the same variable.
pub open spec fn distinct_names(entries: Seq<Assignment>) -> bool {
    forall|i: int, j: int|
        0 <= i < entries.len() && 0 <= j < entries.len() && #[trigger] entries[i].name@
            == #[trigger] entries[j].name@ ==> i == j
}

/// The mapping that a list of entries with distinct names stands for.
pub open spec fn mapping_of(entries: Seq<Assignment>) -> Map<Seq<char>, ValueView> {
    Map::new(
        |k: Seq<char>| exists|i: int| assigns(entries, i, k),
        |k: Seq<char>| entries[choose|i: int| assigns(entries, i, k)].value@,
    )
}

/// The value that the last assignment to `name` in `overlay` gives it.
pub open spec fn last_assigned(overlay: Seq<AssignmentView>, name: Seq<char>) -> Option<ValueView>
    decreases overlay.len(),
{
    if overlay.len() == 0 {
        None
    } else if overlay.last().name == name {
        Some(overlay.last().value)
    } else {
        last_assigned(overlay.drop_last(), name)
    }
}

/// `base` after each assignment of `overlay` was written over it, first to last.
pub open spec fn overlaid(base: Map<Seq<char>, ValueView>, overlay: Seq<AssignmentView>) -> Map<
    Seq<char>,
    ValueView,
>
    decreases overlay.len(),
{
    if overlay.len() == 0 {
        base
    } else {
        overlaid(base, overlay.drop_last()).insert(overlay.last().name, overlay.last().value)
    }
}

/// What a mapping holds for `name`, if anything.
pub open spec fn lookup(m: Map<Seq<char>, ValueView>, name: Seq<char>) -> Option<ValueView> {
    if m.contains_key(name) {
        Some(m[name])
    } else {
        None
    }
}

/// After an overlay, a name has the value of the overlay's last assignment
/// to it, and where the overlay has none, what the base had.
pub proof fn lemma_overlaid_lookup(
    base: Map<Seq<char>, ValueView>,
    overlay: Seq<AssignmentView>,
    name: Seq<char>,
)
    ensures
        lookup(overlaid(base, overlay), name) == match last_assigned(overlay, name) {
            Some(v) => Some(v),
            None => lookup(base, name),
        },
    decreases overlay.len(),
{
    if overlay.len() > 0 {
        lemma_overlaid_lookup(base, overlay.drop_last(), name);
    }
}

/// A name→value mapping, kept as a list in which no name occurs twice.
#[derive(Clone, Debug, PartialEq, Eq)]
pub struct Variables {
    entries: Vec<Assignment>,
}

impl View for Variables {
    type V = Map<Seq<char>, ValueView>;

    closed spec fn view(&self) -> Map<Seq<char>, ValueView> {
        mapping_of(self.entries@)
    }
}

impl Variables {
    /// No name occurs twice.
    pub closed spec fn wf(&self) -> bool {
        distinct_names(self.entries@)
    }

    /// The empty mapping.
    pub fn new() -> (r: Variables)
        ensures
            r.wf(),
            r@ == Map::<Seq<char>, ValueView>::empty(),
    {
        let r = Variables { entries: Vec::new() };
        assert(r@ =~= Map::<Seq<char>, ValueView>::empty());
        r
    }

    /// The number of variables.
    pub fn len(&self) -> (n: usize)
        requires
            self.wf(),
        ensures
            n == self@.dom().len(),
            self@.dom().finite(),
    {
        proof {
            lemma_domain_size(self.entries@);
        }
        self.entries.len()
    }

    /// Where `name` stands in the list, if it does.
    fn position(&self, name: &str) -> (r: Option<usize>)
        ensures
            r matches Some(i) ==> assigns(self.entries@, i as int, name@),
            r is None ==> !self@.contains_key(name@),
    {
        let mut i: usize = 0;
        while i < self.entries.len()
            invariant
                i <= self.entries.len(),
                forall|j: int| 0 <= j < i ==> !assigns(self.entries@, j, name@),
            decreases self.entries.len() - i,
        {
            if crate::text::same_text(self.entries[i].name.as_str(), name) {
                return Some(i);
            }
            i += 1;
        }
        None
    }

    /// The value of `name`, if it has one.
    pub fn get(&self, name: &str) -> (r: Option<&Value>)
        requires
            self.wf(),
        ensures
            match r {
                Some(v) => lookup(self@, name@) == Some(v@),
                None => lookup(self@, name@) is None,
            },
    {
        match self.position(name) {
            Some(i) => {
                proof {
                    let k = choose|k: int| assigns(self.entries@, k, name@);
                    assert(assigns(self.entries@, k, name@));
                    assert(k == i);
                }
                Some(&self.entries[i].value)
            },
            None => None,
        }
    }

    /// Gives `name` the value `value`, replacing any value it had.
    pub fn insert(&mut self, name: String, value: Value)
        requires
            old(self).wf(),
        ensures
            final(self).wf(),
            final(self)@ == old(self)@.insert(name@, value@),
    {
        let ghost before = self.entries@;
        let ghost key = name@;
        let ghost val = value@;
        let found = self.position(name.as_str());
        match found {
            Some(i) => {
                self.entries.set(i, Assignment { name, value });
                proof {
                    let after = self.entries@;
                    assert forall|k: Seq<char>, j: int| assigns(after, j, k) <==> assigns(before, j, k) by {}
                    assert(distinct_names(after));
                    assert forall|k: Seq<char>| #[trigger]
                        mapping_of(after).contains_key(k) implies mapping_of(after)[k]
                        == mapping_of(before).insert(key, val)[k] by {
                        let j = choose|j: int| assigns(after, j, k);
                        assert(assigns(after, j, k));
                        assert(assigns(before, j, k));
                        let j0 = choose|j0: int| assigns(before, j0, k);
                        assert(assigns(before, j0, k));
                        assert(j0 == j);
                        if k == key {
                            assert(assigns(after, i as int, k));
                            assert(j == i);
                        }
                    }
                    assert(assigns(before, i as int, key));
                    assert(mapping_of(after) =~= mapping_of(before).insert(key, val));
                }
            },
            None => {
                self.entries.push(Assignment { name, value });
                proof {
                    let after = self.entries@;
                    let n = before.len() as int;
                    assert(assigns(after, n, key));
                    assert forall|k: Seq<char>, j: int| assigns(after, j, k) <==> (assigns(
                        before,
                        j,
                        k,
                    ) || (j == n && k == key)) by {}
                    assert forall|j: int| !assigns(before, j, key) by {
                        if assigns(before, j, key) {
                            assert(mapping_of(before).contains_key(key));
                        }
                    }
                    assert forall|a: int, b: int|
                        0 <= a < after.len() && 0 <= b < after.len() && #[trigger] after[a].name@
                            == #[trigger] after[b].name@ implies a == b by {
                        if a < n {
                            assert(assigns(before, a, after[a].name@));
                        }
                        if b < n {
                            assert(assigns(before, b, after[b].name@));
                        }
                    }
                    assert forall|k: Seq<char>| #[trigger]
                        mapping_of(after).contains_key(k) implies mapping_of(after)[k]
                        == mapping_of(before).insert(key, val)[k] by {
                        let j = choose|j: int| assigns(after, j, k);
                        assert(assigns(after, j, k));
                        if k != key {
                            assert(assigns(before, j, k));
                            let j0 = choose|j0: int| assigns(before, j0, k);
                            assert(assigns(before, j0, k));
                            assert(j0 == j);
                        }
                    }
                    assert(mapping_of(after) =~= mapping_of(before).insert(key, val));
                }
            },
        }
    }

    /// Writes each assignment of `overlay` over the mapping, first to last.
    pub fn apply(&mut self, overlay: Vec<Assignment>)
        requires
            old(self).wf(),
        ensures
            final(self).wf(),
            final(self)@ == overlaid(old(self)@, assignment_views(overlay@)),
    {
        let ghost base = self@;
        let mut i: usize = 0;
        while i < overlay.len()
            invariant
                i <= overlay.len(),
                self.wf(),
                self@ == overlaid(base, assignment_views(overlay@).take(i as int)),
            decreases overlay.len() - i,
        {
            let name = overlay[i].name.clone();
            let value = overlay[i].value.duplicate();
            self.insert(name, value);
            proof {
                let views = assignment_views(overlay@);
                assert(views.take(i + 1).drop_last() =~= views.take(i as int));
                assert(views.take(i + 1).last() == overlay@[i as int]@);
            }
            i += 1;
        }
        proof {
            assert(assignment_views(overlay@).take(i as int) =~= assignment_views(overlay@));
        }
    }

    /// The assignments as a list, each name once.
    pub fn to_vec(&self) -> (r: Vec<Assignment>)
        requires
            self.wf(),
        ensures
            distinct_names(r@),
            mapping_of(r@) == self@,
    {
        let mut out: Vec<Assignment> = Vec::new();
        let mut i: usize = 0;
        while i < self.entries.len()
            invariant
                i <= self.entries.len(),
                out@.len() == i,
                forall|j: int|
                    0 <= j < i ==> (#[trigger] out@[j]).name@ == self.entries@[j].name@ && out@[j].value@
                        == self.entries@[j].value@,
            decreases self.entries.len() - i,
        {
            out.push(
                Assignment {
                    name: self.entries[i].name.clone(),
                    value: self.entries[i].value.duplicate(),
                },
            );
            i += 1;
        }
        proof {
            lemma_same_mapping(out@, self.entries@);
        }
        out
    }
}

/// Two lists that agree entry by entry stand for the same mapping.
pub proof fn lemma_same_mapping(a: Seq<Assignment>, b: Seq<Assignment>)
    requires
        a.len() == b.len(),
        forall|j: int|
            0 <= j < a.len() ==> (#[trigger] a[j]).name@ == b[j].name@ && a[j].value@ == b[j].value@,
        distinct_names(b),
    ensures
        distinct_names(a),
        mapping_of(a) == mapping_of(b),
{
    assert forall|k: Seq<char>, j: int| assigns(a, j, k) <==> assigns(b, j, k) by {
        if 0 <= j < a.len() {
            assert(a[j].name@ == b[j].name@);
        }
    }
    assert forall|i: int, j: int|
        0 <= i < a.len() && 0 <= j < a.len() && #[trigger] a[i].name@ == #[trigger] a[j].name@ implies i
        == j by {
        assert(a[i].name@ == b[i].name@);
        assert(a[j].name@ == b[j].name@);
    }
    assert forall|k: Seq<char>| #[trigger] mapping_of(a).contains_key(k) implies mapping_of(a)[k]
        == mapping_of(b)[k] by {
        let j = choose|j: int| assigns(a, j, k);
        assert(assigns(a, j, k));
        assert(assigns(b, j, k));
        let j0 = choose|j0: int| assigns(b, j0, k);
        assert(assigns(b, j0, k));
        assert(j0 == j);
        assert(a[j].value@ == b[j].value@);
    }
    assert(mapping_of(a) =~= mapping_of(b));
}

/// A list with distinct names stands for a mapping with as many keys.
pub proof fn lemma_domain_size(entries: Seq<Assignment>)
    requires
        distinct_names(entries),
    ensures
        mapping_of(entries).dom().finite(),
        mapping_of(entries).dom().len() == entries.len(),
    decreases entries.len(),
{
    if entries.len() == 0 {
        assert(mapping_of(entries).dom() =~= Set::<Seq<char>>::empty());
    } else {
        let rest = entries.drop_last();
        let key = entries.last().name@;
        assert forall|i: int, j: int|
            0 <= i < rest.len() && 0 <= j < rest.len() && #[trigger] rest[i].name@
                == #[trigger] rest[j].name@ implies i == j by {
            assert(entries[i].name@ == entries[j].name@);
        }
        lemma_domain_size(rest);
        assert forall|k: Seq<char>|
            mapping_of(entries).dom().contains(k) <==> mapping_of(rest).dom().insert(key).contains(
                k,
            ) by {
            if mapping_of(entries).dom().contains(k) {
                let j = choose|j: int| assigns(entries, j, k);
                assert(assigns(entries, j, k));
                if j < rest.len() {
                    assert(assigns(rest, j, k));
                }
            }
            if mapping_of(rest).dom().contains(k) {
                let j = choose|j: int| assigns(rest, j, k);
                assert(assigns(rest, j, k));
                assert(assigns(entries, j, k));
            }
            if k == key {
                assert(assigns(entries, entries.len() - 1, k));
            }
        }
        assert(mapping_of(entries).dom() =~= mapping_of(rest).dom().insert(key));
        assert(!mapping_of(rest).dom().contains(key)) by {
            if mapping_of(rest).dom().contains(key) {
                let j = choose|j: int| assigns(rest, j, key);
                assert(assigns(rest, j, key));
                assert(entries[j].name@ == entries[entries.len() - 1].name@);
            }
        }
    }
}

} // verus!
