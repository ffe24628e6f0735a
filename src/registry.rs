use vstd::prelude::*;

verus! {

/// `id` is the identifier that a registry built from `names` gives to `key`:
/// ids count from 1 in list order, and a name listed twice keeps its last id.
pub open spec fn assigns(names: Seq<Seq<char>>, key: Seq<char>, id: int) -> bool {
    &&& 1 <= id <= names.len()
    &&& names[id - 1] == key
    &&& forall|j: int| id <= j < names.len() ==> names[j] != key
}

/// A name has at most one identifier.
pub proof fn lemma_assigns_unique(names: Seq<Seq<char>>, key: Seq<char>, a: int, b: int)
    requires
        assigns(names, key, a),
        assigns(names, key, b),
    ensures
        a == b,
{
    if a < b {
        assert(names[b - 1] != key);
    } else if b < a {
        assert(names[a - 1] != key);
    }
}

/// Bidirectional map between symbolic names and small positive identifiers.
pub struct CommIds {
    names: Vec<String>,
}

impl View for CommIds {
    type V = Seq<Seq<char>>;

    closed spec fn view(&self) -> Seq<Seq<char>> {
        self.names@.map_values(|s: String| s@)
    }
}

impl CommIds {
    /// Every identifier fits in an `i32`.
    pub open spec fn wf(&self) -> bool {
        self@.len() <= i32::MAX
    }

    pub fn new() -> (r: CommIds)
        ensures
            r.wf(),
            r@ == Seq::<Seq<char>>::empty(),
    {
        let r = CommIds { names: Vec::new() };
        assert(r@ =~= Seq::<Seq<char>>::empty());
        r
    }

    /// Assigns the ids 1..=N to the names of `list`, in list order.
    pub fn from_list(list: &[&str]) -> (r: CommIds)
        requires
            list@.len() <= i32::MAX,
        ensures
            r.wf(),
            r@ == list@.map_values(|s: &str| s@),
    {
        let mut names: Vec<String> = Vec::new();
        let mut i: usize = 0;
        while i < list.len()
            invariant
                i <= list@.len(),
                names@.len() == i,
                forall|j: int| 0 <= j < i ==> #[trigger] names@[j]@ == list@[j]@,
            decreases list@.len() - i,
        {
            let s: String = list[i].to_owned();
            names.push(s);
            i = i + 1;
        }
        let r = CommIds { names };
        assert(r@ =~= list@.map_values(|s: &str| s@));
        r
    }

    /// Whether `key` has an identifier.
    pub fn contains(&self, key: &str) -> (r: bool)
        ensures
            r == self@.contains(key@),
    {
        let k: String = key.to_owned();
        let mut i: usize = 0;
        while i < self.names.len()
            invariant
                i <= self.names@.len(),
                k@ == key@,
                forall|j: int| 0 <= j < i ==> self@[j] != key@,
            decreases self.names@.len() - i,
        {
            if self.names[i] == k {
                assert(self@[i as int] == key@);
                return true;
            }
            i = i + 1;
        }
        proof {
            if self@.contains(key@) {
                let j = choose|j: int| 0 <= j < self@.len() && self@[j] == key@;
                assert(self@[j] != key@);
            }
        }
        false
    }

    /// The identifier of `key`, which must be registered.
    pub fn get(&self, key: &str) -> (r: i32)
        requires
            self.wf(),
            self@.contains(key@),
        ensures
            assigns(self@, key@, r as int),
    {
        let k: String = key.to_owned();
        let mut i: usize = self.names.len();
        while i > 0
            invariant
                i <= self.names@.len(),
                self@.len() == self.names@.len(),
                self@.len() <= i32::MAX,
                k@ == key@,
                self@.contains(key@),
                forall|j: int| i <= j < self@.len() ==> self@[j] != key@,
            decreases i,
        {
            i = i - 1;
            if self.names[i] == k {
                return (i + 1) as i32;
            }
        }
        proof {
            let j = choose|j: int| 0 <= j < self@.len() && self@[j] == key@;
            assert(self@[j] != key@);
        }
        0
    }

    /// The name that has identifier `id`, if any.
    pub fn get_key(&self, id: i32) -> (r: Option<&str>)
        requires
            self.wf(),
        ensures
            match r {
                Some(k) => assigns(self@, k@, id as int),
                None => forall|k: Seq<char>| !assigns(self@, k, id as int),
            },
    {
        if id < 1 || id as usize > self.names.len() {
            return None;
        }
        let i: usize = (id - 1) as usize;
        let k: &str = self.names[i].as_str();
        let mut j: usize = i + 1;
        while j < self.names.len()
            invariant
                i < j <= self.names@.len(),
                i == id - 1,
                self@.len() == self.names@.len(),
                k@ == self@[i as int],
                forall|m: int| i < m < j ==> self@[m] != k@,
            decreases self.names@.len() - j,
        {
            if self.names[j] == self.names[i] {
                proof {
                    assert(self@[j as int] == self@[i as int]);
                    assert forall|key: Seq<char>| !assigns(self@, key, id as int) by {
                        if assigns(self@, key, id as int) {
                            assert(self@[j as int] != key);
                        }
                    }
                }
                return None;
            }
            j = j + 1;
        }
        Some(k)
    }
}

} // verus!
