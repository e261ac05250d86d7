use vstd::prelude::*;

verus! {

/// Whether entry `i` is the first entry of `entries` for the item `id`.
pub open spec fn is_first_entry(entries: Seq<(i32, String)>, id: i32, i: int) -> bool {
    &&& 0 <= i < entries.len()
    &&& entries[i].0 == id
    &&& forall|k: int| 0 <= k < i ==> (#[trigger] entries[k]).0 != id
}

/// The name that `entries` gives the item `id`: that of its first entry.
pub open spec fn lookup(entries: Seq<(i32, String)>, id: i32) -> Option<Seq<char>> {
    if exists|i: int| is_first_entry(entries, id, i) {
        Some(entries[choose|i: int| is_first_entry(entries, id, i)].1@)
    } else {
        None
    }
}

/// The name shown for an item, whether the catalog knows it or not.
pub open spec fn display_name(entries: Seq<(i32, String)>, id: i32) -> Seq<char> {
    match lookup(entries, id) {
        Some(name) => name,
        None => "Unknown Fish"@,
    }
}

/// The names of the items by their numeric id.
pub struct ItemCatalog {
    entries: Vec<(i32, String)>,
}

impl View for ItemCatalog {
    type V = Seq<(i32, String)>;

    closed spec fn view(&self) -> Seq<(i32, String)> {
        self.entries@
    }
}

impl ItemCatalog {
    /// The catalog of the given pairs of id and name. Where an id stands
    /// twice, its first name counts.
    pub fn new(entries: Vec<(i32, String)>) -> (r: Self)
        ensures
            r@ == entries@,
    {
        ItemCatalog { entries }
    }

    pub fn len(&self) -> (r: usize)
        ensures
            r == self@.len(),
    {
        self.entries.len()
    }

    /// The name of the item `id`, if the catalog has it.
    pub fn name_of(&self, id: i32) -> (r: Option<&str>)
        ensures
            match r {
                Some(name) => lookup(self@, id) == Some(name@),
                None => lookup(self@, id) is None,
            },
    {
        let mut i: usize = 0;
        while i < self.entries.len()
            invariant
                i <= self.entries.len(),
                forall|k: int| 0 <= k < i ==> (#[trigger] self.entries@[k]).0 != id,
            decreases self.entries.len() - i,
        {
            if self.entries[i].0 == id {
                proof {
                    assert(is_first_entry(self@, id, i as int));
                    let c = choose|c: int| is_first_entry(self@, id, c);
                    if c < i {
                        assert(self.entries@[c].0 != id);
                    } else if i < c {
                        assert(self.entries@[i as int].0 != id);
                    }
                }
                return Some(self.entries[i].1.as_str());
            }
            i += 1;
        }
        None
    }

    /// The name to show for the item `id`: `"Unknown Fish"` where the
    /// catalog does not have it.
    pub fn resolve_fish(&self, id: i32) -> (r: &str)
        ensures
            r@ == display_name(self@, id),
    {
        match self.name_of(id) {
            Some(name) => name,
            None => "Unknown Fish",
        }
    }
}

} // verus!
