//! The search state: the committed query, the characters typed at the
//! prompt, the matches of the last search and the selected match.
use vstd::prelude::*;

verus! {

/// Whether some match lies on a line at or after `line`.
pub open spec fn has_match_at_or_after(m: Seq<(u64, u64)>, line: u64) -> bool {
    exists|i: int| 0 <= i < m.len() && m[i].0 >= line
}

/// `i` is the first match on a line at or after `line`.
pub open spec fn is_first_at_or_after(m: Seq<(u64, u64)>, line: u64, i: int) -> bool {
    &&& 0 <= i < m.len()
    &&& m[i].0 >= line
    &&& forall|j: int| 0 <= j < i ==> m[j].0 < line
}

/// Whether some match lies on a line more than one line before `line`.
pub open spec fn has_match_before(m: Seq<(u64, u64)>, line: u64) -> bool {
    exists|i: int| 0 <= i < m.len() && m[i].0 + 1 < line
}

/// `i` is the last match on a line more than one line before `line`.
pub open spec fn is_last_before(m: Seq<(u64, u64)>, line: u64, i: int) -> bool {
    &&& 0 <= i < m.len()
    &&& m[i].0 + 1 < line
    &&& forall|j: int| i < j < m.len() ==> m[j].0 + 1 >= line
}

#[derive(Clone, Debug)]
pub struct SearchResult<'a> {
    /// The file the matcher searches.
    pub filename: &'a str,
    /// The committed query; empty before the first search.
    pub word: String,
    /// The characters typed at the prompt so far.
    pub word_vec: Vec<char>,
    /// The matches of the last search, as (line number, column), line numbers
    /// counting from one.
    pub match_lines: Vec<(u64, u64)>,
    /// The selected match.
    pub now_idx: Option<usize>,
}

impl<'a> SearchResult<'a> {
    /// Whether the selection, if any, points into the matches.
    pub open spec fn wf(&self) -> bool {
        self.now_idx matches Some(i) ==> i < self.match_lines@.len()
    }

    pub fn new(filename: &'a str) -> (r: SearchResult<'a>)
        ensures
            r.filename == filename,
            r.word@ == Seq::<char>::empty(),
            r.word_vec@ == Seq::<char>::empty(),
            r.match_lines@ == Seq::<(u64, u64)>::empty(),
            r.now_idx is None,
            r.wf(),
    {
        SearchResult {
            filename,
            word: String::new(),
            word_vec: Vec::new(),
            match_lines: Vec::new(),
            now_idx: None,
        }
    }

    pub fn word_mut(&mut self) -> (r: &mut String)
        ensures
            *r == old(self).word,
            *final(self) == (SearchResult { word: *final(r), ..*old(self) }),
    {
        &mut self.word
    }

    pub fn word_vec_mut(&mut self) -> (r: &mut Vec<char>)
        ensures
            *r == old(self).word_vec,
            *final(self) == (SearchResult { word_vec: *final(r), ..*old(self) }),
    {
        &mut self.word_vec
    }

    pub fn match_lines_mut(&mut self) -> (r: &mut Vec<(u64, u64)>)
        ensures
            *r == old(self).match_lines,
            *final(self) == (SearchResult { match_lines: *final(r), ..*old(self) }),
    {
        &mut self.match_lines
    }

    /// Whether a match is selected.
    pub fn exists_match(self) -> (r: bool)
        ensures
            r == self.now_idx is Some,
    {
        self.now_idx.is_some()
    }

    /// Selects the first match on a line at or after `now_pos.0` and returns
    /// it; with none there, returns `None` and leaves the state as it was
    /// (there is no wrap to the first match).
    pub fn get_near_line(&mut self, now_pos: (u64, u64)) -> (r: Option<(u64, u64)>)
        ensures
            r is Some == has_match_at_or_after(old(self).match_lines@, now_pos.0),
            r is None ==> *final(self) == *old(self),
            r matches Some(p) ==> ({
                &&& final(self).now_idx matches Some(i)
                &&& is_first_at_or_after(old(self).match_lines@, now_pos.0, i as int)
                &&& p == old(self).match_lines@[i as int]
                &&& *final(self) == (SearchResult { now_idx: Some(i), ..*old(self) })
            }),
    {
        let n = self.match_lines.len();
        let mut idx: usize = 0;
        while idx < n
            invariant
                n == self.match_lines@.len(),
                *self == *old(self),
                forall|j: int| 0 <= j < idx ==> self.match_lines@[j].0 < now_pos.0,
            decreases n - idx,
        {
            let (line_num, _) = self.match_lines[idx];
            if line_num >= now_pos.0 {
                self.now_idx = Some(idx);
                return Some(self.match_lines[idx]);
            }
            idx = idx + 1;
        }
        None
    }

    /// Selects the last match on a line more than one line before
    /// `now_pos.0` and returns it; with none there, returns `None` and leaves
    /// the state as it was (there is no wrap to the last match).
    pub fn get_near_line_with_previous(&mut self, now_pos: (u64, u64)) -> (r: Option<(u64, u64)>)
        ensures
            r is Some == has_match_before(old(self).match_lines@, now_pos.0),
            r is None ==> *final(self) == *old(self),
            r matches Some(p) ==> ({
                &&& final(self).now_idx matches Some(i)
                &&& is_last_before(old(self).match_lines@, now_pos.0, i as int)
                &&& p == old(self).match_lines@[i as int]
                &&& *final(self) == (SearchResult { now_idx: Some(i), ..*old(self) })
            }),
    {
        let mut idx: usize = self.match_lines.len();
        while idx > 0
            invariant
                idx <= self.match_lines@.len(),
                *self == *old(self),
                forall|j: int| idx <= j < self.match_lines@.len() ==> self.match_lines@[j].0 + 1
                    >= now_pos.0,
            decreases idx,
        {
            idx = idx - 1;
            let (line_num, _) = self.match_lines[idx];
            if (line_num as u128) + 1 < now_pos.0 as u128 {
                self.now_idx = Some(idx);
                return Some(self.match_lines[idx]);
            }
        }
        None
    }

    /// Selects the match after the selected one, going round from the last
    /// to the first, and returns it; with no selection, or no matches,
    /// returns `None` and changes nothing.
    pub fn next(&mut self) -> (r: Option<(u64, u64)>)
        requires
            old(self).wf(),
        ensures
            final(self).wf(),
            r is Some == (old(self).now_idx is Some && old(self).match_lines@.len() > 0),
            r is None ==> *final(self) == *old(self),
            r is Some ==> ({
                let k = ((old(self).now_idx->0 + 1) % (old(self).match_lines@.len() as int)) as usize;
                &&& r->0 == old(self).match_lines@[k as int]
                &&& *final(self) == (SearchResult { now_idx: Some(k), ..*old(self) })
            }),
    {
        match self.now_idx {
            None => None,
            Some(i) => {
                let n = self.match_lines.len();
                let k: usize = if i + 1 < n { i + 1 } else { 0 };
                assert(k as int == (i + 1) % (n as int)) by {
                    if i + 1 < n {
                        vstd::arithmetic::div_mod::lemma_small_mod((i + 1) as nat, n as nat);
                    } else {
                        vstd::arithmetic::div_mod::lemma_mod_self_0(n as int);
                    }
                }
                self.now_idx = Some(k);
                Some(self.match_lines[k])
            },
        }
    }

    /// Clears the query, the typed characters, the matches and the selection.
    pub fn reset(&mut self)
        ensures
            final(self).filename == old(self).filename,
            final(self).word@ == Seq::<char>::empty(),
            final(self).word_vec@ == Seq::<char>::empty(),
            final(self).match_lines@ == Seq::<(u64, u64)>::empty(),
            final(self).now_idx is None,
            final(self).wf(),
    {
        self.word = String::new();
        self.word_vec = Vec::new();
        self.match_lines = Vec::new();
        self.now_idx = None;
    }
}

} // verus!
