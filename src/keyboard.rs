use vstd::prelude::*;

verus! {

/// The keyboard layouts that the compositor last announced.
pub struct Layouts {
    names: Vec<String>,
}

impl View for Layouts {
    type V = Seq<Seq<char>>;

    closed spec fn view(&self) -> Seq<Seq<char>> {
        self.names@.map_values(|n: String| n@)
    }
}

impl Layouts {
    /// No layouts known yet.
    pub fn new() -> (r: Self)
        ensures
            r@.len() == 0,
    {
        let r = Layouts { names: Vec::new() };
        assert(r@ =~= Seq::<Seq<char>>::empty());
        r
    }

    /// Replaces the known layouts by the announced `names`.
    pub fn layouts_changed(&mut self, names: &Vec<String>)
        ensures
            final(self)@ == names@.map_values(|n: String| n@),
    {
        let mut copy: Vec<String> = Vec::new();
        let mut i: usize = 0;
        while i < names.len()
            invariant
                i <= names@.len(),
                copy@.len() == i,
                forall|k: int| 0 <= k < i ==> copy@[k]@ == names@[k]@,
            decreases names@.len() - i,
        {
            copy.push(names[i].clone());
            i += 1;
        }
        self.names = copy;
        assert(self@ =~= names@.map_values(|n: String| n@));
    }

    /// The name of the layout switched to, by its index; none where the
    /// index names no announced layout.
    pub fn layout_switched(&self, idx: u8) -> (r: Option<String>)
        ensures
            (idx as int) < self@.len() ==> (r matches Some(n) && n@ == self@[idx as int]),
            (idx as int) >= self@.len() ==> r is None,
    {
        if (idx as usize) < self.names.len() {
            Some(self.names[idx as usize].clone())
        } else {
            None
        }
    }
}

} // verus!
