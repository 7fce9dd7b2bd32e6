use vstd::prelude::*;

use crate::text::char_count;
use crate::word_pack::{summarizes, OcrMatchSummary, WordPack};

verus! {

/// The number of characters in all of `lines` together.
pub open spec fn total_characters(lines: Seq<String>) -> int
    decreases lines.len(),
{
    if lines.len() == 0 {
        0
    } else {
        total_characters(lines.drop_last()) + lines.last()@.len()
    }
}

proof fn lemma_total_characters_grows(lines: Seq<String>, n: int)
    requires
        0 <= n <= lines.len(),
    ensures
        total_characters(lines.take(n)) <= total_characters(lines),
    decreases lines.len() - n,
{
    if n < lines.len() {
        lemma_total_characters_grows(lines, n + 1);
        assert(lines.take(n + 1).drop_last() =~= lines.take(n));
    } else {
        assert(lines.take(n) =~= lines);
    }
}

/// Why a batch of recognised text was refused.
#[derive(Debug, Clone, Copy, PartialEq, Eq, Structural)]
pub enum OcrTextError {
    CharacterLimitExceeded,
}

/// The lines recognised in one frame, within a character budget. It offers no way to read
/// the text back out; only a word pack looks at it.
#[derive(Clone, PartialEq, Eq)]
pub struct OcrTextBatch {
    lines: Vec<String>,
    characters: usize,
}

impl OcrTextBatch {
    /// The text of each line, in order.
    pub closed spec fn texts(self) -> Seq<Seq<char>> {
        self.lines@.map_values(|line: String| line@)
    }

    /// The number of lines.
    pub closed spec fn spec_line_count(self) -> nat {
        self.lines@.len()
    }

    /// The number of characters in all lines together.
    pub closed spec fn spec_character_count(self) -> nat {
        self.characters as nat
    }

    /// Takes `lines` if their characters together number at most `maximum_characters`.
    pub fn from_lines(lines: Vec<String>, maximum_characters: usize) -> (r: Result<Self, OcrTextError>)
        ensures
            match r {
                Ok(batch) => {
                    &&& total_characters(lines@) <= maximum_characters
                    &&& batch.texts() == lines@.map_values(|line: String| line@)
                    &&& batch.spec_line_count() == lines@.len()
                    &&& batch.spec_character_count() == total_characters(lines@)
                },
                Err(e) => e == OcrTextError::CharacterLimitExceeded && total_characters(lines@)
                    > maximum_characters,
            },
    {
        let mut total: usize = 0;
        let mut i: usize = 0;
        while i < lines.len()
            invariant
                i <= lines@.len(),
                total == total_characters(lines@.take(i as int)),
                total <= maximum_characters,
            decreases lines@.len() - i,
        {
            let n = char_count(lines[i].as_str());
            assert(lines@.take(i + 1).drop_last() =~= lines@.take(i as int));
            if n > maximum_characters - total {
                proof {
                    lemma_total_characters_grows(lines@, i + 1);
                }
                return Err(OcrTextError::CharacterLimitExceeded);
            }
            total = total + n;
            i = i + 1;
        }
        assert(lines@.take(lines@.len() as int) =~= lines@);
        Ok(OcrTextBatch { lines, characters: total })
    }

    /// The number of lines.
    pub fn line_count(&self) -> (n: usize)
        ensures
            n == self.spec_line_count(),
    {
        self.lines.len()
    }

    /// The number of characters in all lines together.
    pub fn character_count(&self) -> (n: usize)
        ensures
            n == self.spec_character_count(),
    {
        self.characters
    }

    fn line_refs(&self) -> (refs: Vec<&str>)
        ensures
            refs@.map_values(|l: &str| l@) == self.texts(),
    {
        let mut refs: Vec<&str> = Vec::new();
        let mut i: usize = 0;
        while i < self.lines.len()
            invariant
                i <= self.lines@.len(),
                refs@.len() == i,
                forall|k: int| 0 <= k < i ==> #[trigger] refs@[k]@ == self.lines@[k]@,
            decreases self.lines@.len() - i,
        {
            refs.push(self.lines[i].as_str());
            i = i + 1;
        }
        assert(refs@.map_values(|l: &str| l@) =~= self.texts());
        refs
    }
}

impl WordPack {
    /// Classifies the lines of a batch as `classify` does.
    pub fn classify_batch(&self, batch: &OcrTextBatch) -> (summary: OcrMatchSummary)
        ensures
            summarizes(self.rules(), batch.texts(), summary),
    {
        let refs = batch.line_refs();
        self.classify(refs.as_slice())
    }
}

} // verus!
