use vstd::prelude::*;
use vstd::hash_map::StringHashMap;

verus! {

/// An in-memory model of the slice of the filesystem that the installer
/// touches: a finite map from file paths to file contents. The lifecycle
/// steps of the engine are verified as transitions of this model; the outer
/// shell mirrors each transition onto the real disk.
pub struct FsState {
    files: StringHashMap<Vec<u8>>,
}

impl View for FsState {
    type V = Map<Seq<char>, Seq<u8>>;

    closed spec fn view(&self) -> Map<Seq<char>, Seq<u8>> {
        self.files@.map_values(|v: Vec<u8>| v@)
    }
}

impl FsState {
    /// A filesystem model with no files.
    pub fn new() -> (r: FsState)
        ensures
            r@ == Map::<Seq<char>, Seq<u8>>::empty(),
    {
        let r = FsState { files: StringHashMap::new() };
        proof {
            assert(r@ =~= Map::<Seq<char>, Seq<u8>>::empty());
        }
        r
    }

    /// Whether a file exists at the given path.
    pub fn has_file(&self, path: &str) -> (r: bool)
        ensures
            r == self@.contains_key(path@),
    {
        self.files.contains_key(path)
    }

    /// The contents of the file at the given path, if one is present.
    pub fn read_file(&self, path: &str) -> (r: Option<&Vec<u8>>)
        ensures
            match r {
                Some(v) => self@.contains_key(path@) && v@ == self@[path@],
                None => !self@.contains_key(path@),
            },
    {
        self.files.get(path)
    }

    /// Creates or fully overwrites the file at the given path.
    pub fn write_file(&mut self, path: &str, data: &[u8])
        ensures
            final(self)@ == old(self)@.insert(path@, data@),
    {
        let owned: Vec<u8> = vstd::slice::slice_to_vec(data);
        self.files.insert(path.to_owned(), owned);
        proof {
            assert(self@ =~= old(self)@.insert(path@, data@));
        }
    }

    /// Removes the file at the given path, if any; reports whether one was
    /// present.
    pub fn remove_file(&mut self, path: &str) -> (r: bool)
        ensures
            r == old(self)@.contains_key(path@),
            final(self)@ == old(self)@.remove(path@),
    {
        let present = self.files.contains_key(path);
        self.files.remove(path);
        proof {
            assert(self@ =~= old(self)@.remove(path@));
        }
        present
    }

    /// How many files the model holds.
    pub fn file_count(&self) -> (r: usize)
        ensures
            r == self@.len(),
    {
        proof {
            broadcast use vstd::hash_map::axiom_string_hash_map_spec_len;

            assert(self@.dom() =~= self.files@.dom());
        }
        self.files.len()
    }
}

} // verus!
