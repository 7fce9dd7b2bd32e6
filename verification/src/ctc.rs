use vstd::prelude::*;

use crate::engines::CtcError;
use crate::text::same_text;
use vstd::string::StrSliceExecFns;

verus! {

/// Converts `c` with `char::to_string`: the string of that one character.
#[verifier::external_body]
fn char_string(c: char) -> (s: String)
    ensures
        s@ == seq![c],
{
    c.to_string()
}

/// `line` without one trailing carriage return.
pub open spec fn without_cr(line: Seq<char>) -> Seq<char> {
    if line.len() > 0 && line.last() == '\r' {
        line.drop_last()
    } else {
        line
    }
}

/// Reading `s` from the start: the lines ended by a line feed so far, each without its
/// line feed and one carriage return before it, and the characters of the line not yet
/// ended.
pub open spec fn scan_lines(s: Seq<char>) -> (Seq<Seq<char>>, Seq<char>)
    decreases s.len(),
{
    if s.len() == 0 {
        (Seq::empty(), Seq::empty())
    } else {
        let (done, current) = scan_lines(s.drop_last());
        if s.last() == '\n' {
            (done.push(without_cr(current)), Seq::empty())
        } else {
            (done, current.push(s.last()))
        }
    }
}

/// The lines of `s`, as `str::lines` yields them: split at line feeds, a carriage return
/// before a line feed dropped, and no empty line after a final line feed.
pub open spec fn lines_of(s: Seq<char>) -> Seq<Seq<char>> {
    let (done, current) = scan_lines(s);
    if current.len() > 0 {
        done.push(current)
    } else {
        done
    }
}

pub(crate) fn split_lines(text: &str) -> (lines: Vec<String>)
    ensures
        lines@.map_values(|l: String| l@) == lines_of(text@),
{
    let mut done: Vec<String> = Vec::new();
    let mut current = String::new();
    let mut pending_cr = false;
    let ghost s = text@;
    for c in it: text.chars()
        invariant
            it.seq() == s,
            done@.map_values(|l: String| l@) == scan_lines(s.take(it.index())).0,
            current@ + (if pending_cr {
                seq!['\r']
            } else {
                Seq::empty()
            }) == scan_lines(s.take(it.index())).1,
            !pending_cr ==> (current@.len() == 0 || current@.last() != '\r'),
    {
        let ghost prefix = s.take(it.index());
        assert(s.take(it.index() + 1).drop_last() =~= prefix);
        assert(s.take(it.index() + 1).last() == c);
        let ghost before = done@;
        if c == '\n' {
            let line = current;
            done.push(line);
            current = String::new();
            pending_cr = false;
            proof {
                let view = done@.map_values(|l: String| l@);
                let whole = scan_lines(prefix).1;
                if whole.len() > 0 && whole.last() == '\r' {
                    assert(whole.drop_last() =~= done@[done@.len() - 1]@);
                }
                assert(view =~= scan_lines(prefix).0.push(without_cr(whole)));
            }
        } else {
            if pending_cr {
                current.append("\r");
                proof {
                    reveal_strlit("\r");
                }
            }
            if c == '\r' {
                pending_cr = true;
            } else {
                pending_cr = false;
                let one = char_string(c);
                current.append(one.as_str());
            }
            proof {
                reveal_strlit("\r");
                assert(done@.map_values(|l: String| l@) =~= before.map_values(|l: String| l@));
            }
        }
    }
    assert(s.take(s.len() as int) =~= s);
    if pending_cr {
        current.append("\r");
        proof {
            reveal_strlit("\r");
        }
    }
    assert(current@ == scan_lines(s).1);
    let ghost before = done@.map_values(|l: String| l@);
    assert(before == scan_lines(s).0);
    if !current.as_str().is_empty() {
        let ghost last = current@;
        done.push(current);
        assert(done@.map_values(|l: String| l@) =~= before.push(last));
    }
    done
}

/// The entries are a usable dictionary for `blank_index`: at least one entry, none empty,
/// none repeated, and the blank class at most one past the last entry.
pub open spec fn dictionary_ok(entries: Seq<Seq<char>>, blank_index: usize) -> bool {
    &&& entries.len() > 0
    &&& forall|i: int| 0 <= i < entries.len() ==> (#[trigger] entries[i]).len() > 0
    &&& blank_index <= entries.len()
    &&& forall|i: int, j: int| 0 <= i < j < entries.len() ==> #[trigger] entries[i] != #[trigger] entries[j]
}

/// The entry a class index stands for: none for the blank class; classes after the blank
/// are shifted down by one.
pub open spec fn entry_for(entries: Seq<Seq<char>>, blank_index: usize, class: usize) -> Option<Seq<char>> {
    if class == blank_index {
        None
    } else {
        let index: int = if class < blank_index {
            class as int
        } else {
            class - 1
        };
        if 0 <= index < entries.len() {
            Some(entries[index])
        } else {
            None
        }
    }
}

/// What the layout check answers for `[batch, time, classes]` logits holding `logit_count`
/// values, against a dictionary of `entry_count` entries.
pub open spec fn logit_layout(entry_count: nat, logit_count: usize, batch: usize, time: usize, classes: usize) -> Result<
    (),
    CtcError,
> {
    if entry_count + 1 > usize::MAX {
        Err(CtcError::ArithmeticOverflow)
    } else if classes != entry_count + 1 {
        Err(CtcError::ClassCountMismatch)
    } else if batch * time > usize::MAX || batch * time * classes > usize::MAX {
        Err(CtcError::ArithmeticOverflow)
    } else if logit_count != batch * time * classes {
        Err(CtcError::InvalidLogitCount)
    } else {
        Ok(())
    }
}

/// What the greedy collapse has made of the timesteps read so far: the text, the timesteps
/// whose entry was emitted, the class emitted last since the last blank, and whether the
/// character limit has stopped it.
pub type CollapseState = (Seq<char>, Seq<usize>, Option<usize>, bool);

/// One timestep of the greedy collapse: a blank ends a run; a class repeated within a run
/// adds nothing; any other class emits its entry, unless the entry would take the text
/// past `maximum` characters, which stops the collapse.
pub open spec fn collapse_step(
    entries: Seq<Seq<char>>,
    blank_index: usize,
    maximum: usize,
    state: CollapseState,
    step: usize,
    class: usize,
) -> Result<CollapseState, CtcError> {
    let (text, emitted, previous, stopped) = state;
    if stopped {
        Ok(state)
    } else if class == blank_index {
        Ok((text, emitted, None, false))
    } else if previous == Some(class) {
        Ok(state)
    } else {
        match entry_for(entries, blank_index, class) {
            None => Err(CtcError::ClassCountMismatch),
            Some(entry) => if text.len() + entry.len() > usize::MAX {
                Err(CtcError::ArithmeticOverflow)
            } else if text.len() + entry.len() > maximum {
                Ok((text, emitted, Some(class), true))
            } else {
                Ok((text + entry, emitted.push(step), Some(class), false))
            },
        }
    }
}

/// The greedy collapse of a line whose most likely class at each timestep is `classes`.
pub open spec fn collapse(
    entries: Seq<Seq<char>>,
    blank_index: usize,
    maximum: usize,
    classes: Seq<usize>,
) -> Result<CollapseState, CtcError>
    decreases classes.len(),
{
    if classes.len() == 0 {
        Ok((Seq::empty(), Seq::empty(), None, false))
    } else {
        match collapse(entries, blank_index, maximum, classes.drop_last()) {
            Err(e) => Err(e),
            Ok(state) => collapse_step(
                entries,
                blank_index,
                maximum,
                state,
                (classes.len() - 1) as usize,
                classes.last(),
            ),
        }
    }
}

/// `steps` are timesteps of a line of `length` steps, in strictly increasing order.
pub open spec fn steps_within(steps: Seq<usize>, length: nat) -> bool {
    &&& forall|i: int| 0 <= i < steps.len() ==> (#[trigger] steps[i]) < length
    &&& forall|i: int, j: int| 0 <= i < j < steps.len() ==> (#[trigger] steps[i]) < (#[trigger] steps[j])
}

/// The entries of the classes at `steps`, one after another.
pub open spec fn text_of_steps(
    entries: Seq<Seq<char>>,
    blank_index: usize,
    classes: Seq<usize>,
    steps: Seq<usize>,
) -> Seq<char>
    decreases steps.len(),
{
    if steps.len() == 0 {
        Seq::empty()
    } else {
        text_of_steps(entries, blank_index, classes, steps.drop_last()) + match entry_for(
            entries,
            blank_index,
            classes[steps.last() as int],
        ) {
            Some(entry) => entry,
            None => Seq::empty(),
        }
    }
}

proof fn lemma_text_of_steps_prefix(
    entries: Seq<Seq<char>>,
    blank_index: usize,
    classes: Seq<usize>,
    n: int,
    steps: Seq<usize>,
)
    requires
        0 <= n <= classes.len(),
        forall|i: int| 0 <= i < steps.len() ==> (#[trigger] steps[i]) < n,
    ensures
        text_of_steps(entries, blank_index, classes.take(n), steps) == text_of_steps(
            entries,
            blank_index,
            classes,
            steps,
        ),
    decreases steps.len(),
{
    if steps.len() > 0 {
        let rest = steps.drop_last();
        assert forall|i: int| 0 <= i < rest.len() implies (#[trigger] rest[i]) < n by {
            assert(rest[i] == steps[i]);
        }
        lemma_text_of_steps_prefix(entries, blank_index, classes, n, rest);
        assert(steps[steps.len() - 1] < n);
    }
}

/// The collapsed text is made of nothing but the dictionary entries of the classes at the
/// emitted timesteps, in order.
pub proof fn lemma_collapsed_text_is_the_emitted_entries(
    entries: Seq<Seq<char>>,
    blank_index: usize,
    maximum: usize,
    classes: Seq<usize>,
)
    requires
        classes.len() <= usize::MAX,
    ensures
        collapse(entries, blank_index, maximum, classes) matches Ok(state) ==> {
            &&& state.0 == text_of_steps(entries, blank_index, classes, state.1)
            &&& forall|i: int| 0 <= i < state.1.len() ==> (#[trigger] state.1[i]) < classes.len()
        },
    decreases classes.len(),
{
    if classes.len() > 0 {
        let before = classes.drop_last();
        lemma_collapsed_text_is_the_emitted_entries(entries, blank_index, maximum, before);
        match collapse(entries, blank_index, maximum, before) {
            Err(_) => {},
            Ok(previous) => {
                let n = classes.len() - 1;
                assert(classes.take(n) =~= before);
                lemma_text_of_steps_prefix(entries, blank_index, classes, n, previous.1);
                let t = n as usize;
                let c = classes.last();
                assert(classes[t as int] == c);
                assert(collapse(entries, blank_index, maximum, classes) == collapse_step(
                    entries,
                    blank_index,
                    maximum,
                    previous,
                    t,
                    c,
                ));
                match collapse(entries, blank_index, maximum, classes) {
                    Err(_) => {},
                    Ok(state) => {
                        let (text, emitted, last, stopped) = previous;
                        if !stopped && c != blank_index && last != Some(c) && entry_for(
                            entries,
                            blank_index,
                            c,
                        ) is Some && text.len() + entry_for(entries, blank_index, c)->0.len()
                            <= maximum {
                            assert(state.1 == emitted.push(t));
                            assert(state.1.drop_last() =~= emitted);
                            assert(state.1.last() == t);
                            assert(text_of_steps(entries, blank_index, classes, state.1)
                                == text_of_steps(entries, blank_index, classes, emitted)
                                + entry_for(entries, blank_index, c)->0);
                        } else {
                            assert(state.1 == emitted);
                            assert(state.0 == text);
                        }
                    },
                }
            },
        }
    }
}

/// Once the collapse has failed or stopped, later timesteps change nothing.
proof fn lemma_collapse_settled(
    entries: Seq<Seq<char>>,
    blank_index: usize,
    maximum: usize,
    classes: Seq<usize>,
    k: int,
    j: int,
)
    requires
        0 <= k <= j <= classes.len(),
        match collapse(entries, blank_index, maximum, classes.take(k)) {
            Err(_) => true,
            Ok(state) => state.3,
        },
    ensures
        collapse(entries, blank_index, maximum, classes.take(j)) == collapse(
            entries,
            blank_index,
            maximum,
            classes.take(k),
        ),
    decreases j - k,
{
    if j > k {
        lemma_collapse_settled(entries, blank_index, maximum, classes, k, j - 1);
        assert(classes.take(j).drop_last() =~= classes.take(j - 1));
    }
}

/// A collapsed line: its text, its character count, and the timesteps whose entry it holds.
pub struct CollapsedLine {
    text: String,
    characters: usize,
    emitted_steps: Vec<usize>,
}

impl CollapsedLine {
    #[verifier::type_invariant]
    spec fn counted(self) -> bool {
        self.characters == self.text@.len()
    }

    /// The text of the line.
    pub closed spec fn spec_text(self) -> Seq<char> {
        self.text@
    }

    /// The timesteps whose entry was emitted, in order.
    pub closed spec fn spec_emitted_steps(self) -> Seq<usize> {
        self.emitted_steps@
    }

    /// The text of the line.
    pub fn text(&self) -> (t: &str)
        ensures
            t@ == self.spec_text(),
    {
        self.text.as_str()
    }

    /// The number of characters of the text.
    pub fn character_count(&self) -> (n: usize)
        ensures
            n == self.spec_text().len(),
    {
        proof {
            use_type_invariant(self);
        }
        self.characters
    }

    /// The timesteps whose entry was emitted, in order.
    pub fn emitted_steps(&self) -> (steps: &Vec<usize>)
        ensures
            steps@ == self.spec_emitted_steps(),
    {
        &self.emitted_steps
    }

    /// Gives up the line for its text.
    pub fn into_text(self) -> (t: String)
        ensures
            t@ == self.spec_text(),
    {
        self.text
    }
}

/// What is left of a frame's character budget while its lines are decoded.
#[derive(Debug, Clone, Copy, PartialEq, Eq, Structural)]
pub struct CharacterBudget {
    pub remaining: usize,
}

impl CharacterBudget {
    /// A budget of `total` characters.
    pub fn new(total: usize) -> (budget: Self)
        ensures
            budget.remaining == total,
    {
        CharacterBudget { remaining: total }
    }

    /// Whether nothing is left; decoding stops there.
    pub fn exhausted(&self) -> (done: bool)
        ensures
            done == (self.remaining == 0),
    {
        self.remaining == 0
    }

    /// The most characters the next line may hold: the line limit, or what is left where
    /// that is less.
    pub fn line_limit(&self, maximum_line_characters: usize) -> (limit: usize)
        ensures
            limit == (if maximum_line_characters <= self.remaining {
                maximum_line_characters
            } else {
                self.remaining
            }),
    {
        if maximum_line_characters <= self.remaining {
            maximum_line_characters
        } else {
            self.remaining
        }
    }

    /// Keeps a decoded line of `characters` characters where it is not empty and was read
    /// with enough confidence, charging it to the budget; a line longer than what is left is
    /// an overflow error.
    pub fn keep_line(&mut self, characters: usize, confident: bool) -> (r: Result<bool, CtcError>)
        ensures
            match r {
                Ok(kept) => {
                    &&& kept == (characters > 0 && confident)
                    &&& final(self).remaining == (if kept {
                        old(self).remaining - characters
                    } else {
                        old(self).remaining as int
                    })
                },
                Err(e) => e == CtcError::ArithmeticOverflow && characters > 0 && confident
                    && characters > old(self).remaining,
            },
    {
        if characters > 0 && confident {
            if characters > self.remaining {
                return Err(CtcError::ArithmeticOverflow);
            }
            self.remaining = self.remaining - characters;
            Ok(true)
        } else {
            Ok(false)
        }
    }
}

/// The characters a CTC recogniser can emit, one entry per class, without the blank class.
pub struct CtcDictionary {
    entries: Vec<String>,
    blank_index: usize,
}

impl CtcDictionary {
    /// The entries, in class order.
    pub closed spec fn entries(self) -> Seq<Seq<char>> {
        self.entries@.map_values(|e: String| e@)
    }

    /// The class index of the blank.
    pub closed spec fn spec_blank_index(self) -> usize {
        self.blank_index
    }

    /// Reads newline-separated entries and places the separate blank class.
    pub fn parse(entries: &str, blank_index: usize) -> (r: Result<Self, CtcError>)
        ensures
            match r {
                Ok(d) => dictionary_ok(lines_of(entries@), blank_index) && d.entries() == lines_of(entries@)
                    && d.spec_blank_index() == blank_index,
                Err(e) => e == CtcError::InvalidDictionary && !dictionary_ok(lines_of(entries@), blank_index),
            },
    {
        let parsed = split_lines(entries);
        let ghost view = parsed@.map_values(|l: String| l@);
        if parsed.len() == 0 || blank_index > parsed.len() {
            return Err(CtcError::InvalidDictionary);
        }
        let mut i: usize = 0;
        while i < parsed.len()
            invariant
                view == parsed@.map_values(|l: String| l@),
                view == lines_of(entries@),
                i <= parsed@.len(),
                forall|k: int| 0 <= k < i ==> (#[trigger] view[k]).len() > 0,
                forall|a: int, b: int| 0 <= a < b < parsed@.len() && a < i ==> #[trigger] view[a] != #[trigger] view[b],
            decreases parsed@.len() - i,
        {
            if parsed[i].as_str().is_empty() {
                assert(view[i as int].len() == 0);
                return Err(CtcError::InvalidDictionary);
            }
            // Entries are compared pairwise: a `HashSet` of the entries gives Verus nothing
            // to prove that its length counts the distinct entries.
            let mut j: usize = i + 1;
            while j < parsed.len()
                invariant
                    view == parsed@.map_values(|l: String| l@),
                    view == lines_of(entries@),
                    i < j <= parsed@.len(),
                    forall|b: int| i < b < j ==> view[i as int] != #[trigger] view[b],
                decreases parsed@.len() - j,
            {
                if same_text(parsed[i].as_str(), parsed[j].as_str()) {
                    assert(view[i as int] == view[j as int]);
                    return Err(CtcError::InvalidDictionary);
                }
                j = j + 1;
            }
            assert(view[i as int].len() > 0) by {
                vstd::utf8::encode_utf8_decode_utf8(parsed@[i as int]@);
            }
            i = i + 1;
        }
        Ok(CtcDictionary { entries: parsed, blank_index })
    }

    /// The number of classes: the entries and the blank; an overflow error where it does not
    /// fit in `usize`.
    pub fn class_count(&self) -> (r: Result<usize, CtcError>)
        ensures
            match r {
                Ok(n) => n == self.entries().len() + 1,
                Err(e) => e == CtcError::ArithmeticOverflow && self.entries().len() + 1 > usize::MAX,
            },
    {
        match self.entries.len().checked_add(1) {
            Some(n) => Ok(n),
            None => Err(CtcError::ArithmeticOverflow),
        }
    }

    /// Collapses one line greedily: `classes` holds the most likely class at each timestep,
    /// and the text holds at most `maximum_characters` characters.
    pub fn collapse_line(&self, classes: &[usize], maximum_characters: usize) -> (r: Result<
        CollapsedLine,
        CtcError,
    >)
        ensures
            match r {
                Ok(line) => {
                    &&& collapse(self.entries(), self.spec_blank_index(), maximum_characters, classes@)
                        matches Ok(state) && line.spec_text() == state.0 && line.spec_emitted_steps()
                        == state.1
                    &&& line.spec_text().len() <= maximum_characters
                    &&& steps_within(line.spec_emitted_steps(), classes@.len())
                    &&& line.spec_text() == text_of_steps(
                        self.entries(),
                        self.spec_blank_index(),
                        classes@,
                        line.spec_emitted_steps(),
                    )
                },
                Err(e) => collapse(self.entries(), self.spec_blank_index(), maximum_characters, classes@)
                    == Err::<CollapseState, CtcError>(e),
            },
    {
        let ghost entries = self.entries();
        let ghost blank = self.blank_index;
        let ghost all = classes@;
        let mut text = String::new();
        let mut characters: usize = 0;
        let mut emitted: Vec<usize> = Vec::new();
        let mut previous: Option<usize> = None;
        let mut step: usize = 0;
        let ghost mut stopped = false;
        while step < classes.len()
            invariant
                entries == self.entries(),
                blank == self.blank_index,
                all == classes@,
                step <= classes.len(),
                characters == text@.len(),
                characters <= maximum_characters,
                collapse(entries, blank, maximum_characters, all.take(step as int)) == Ok::<
                    CollapseState,
                    CtcError,
                >((text@, emitted@, previous, stopped)),
                stopped ==> step == classes.len(),
                steps_within(emitted@, step as nat),
            decreases classes.len() - step,
        {
            let class = classes[step];
            let ghost before = all.take(step as int);
            assert(all.take(step + 1).drop_last() =~= before);
            if class == self.blank_index {
                previous = None;
            } else if previous == Some(class) {
            } else {
                previous = Some(class);
                match self.entry_for_class(class) {
                    None => {
                        proof {
                            lemma_collapse_settled(
                                entries,
                                blank,
                                maximum_characters,
                                all,
                                step + 1,
                                all.len() as int,
                            );
                            assert(all.take(all.len() as int) =~= all);
                        }
                        return Err(CtcError::ClassCountMismatch);
                    },
                    Some(entry) => {
                        let entry_characters = entry.unicode_len();
                        match characters.checked_add(entry_characters) {
                            None => {
                                proof {
                                    lemma_collapse_settled(
                                        entries,
                                        blank,
                                        maximum_characters,
                                        all,
                                        step + 1,
                                        all.len() as int,
                                    );
                                    assert(all.take(all.len() as int) =~= all);
                                }
                                return Err(CtcError::ArithmeticOverflow);
                            },
                            Some(next_count) => {
                                if next_count > maximum_characters {
                                    proof {
                                        lemma_collapse_settled(
                                            entries,
                                            blank,
                                            maximum_characters,
                                            all,
                                            step + 1,
                                            all.len() as int,
                                        );
                                    }
                                    step = classes.len();
                                    proof {
                                        stopped = true;
                                        assert(all.take(all.len() as int) =~= all);
                                    }
                                    continue;
                                }
                                text.append(entry);
                                characters = next_count;
                                emitted.push(step);
                            },
                        }
                    },
                }
            }
            step = step + 1;
        }
        assert(all.take(classes.len() as int) =~= all);
        proof {
            assert(all.len() == classes.len());
            lemma_collapsed_text_is_the_emitted_entries(entries, blank, maximum_characters, all);
        }
        Ok(CollapsedLine { text, characters, emitted_steps: emitted })
    }

    /// Checks the layout of `[batch, time, classes]` logits holding `logit_count` values:
    /// one class per dictionary entry and one for the blank, and exactly
    /// `batch * time * classes` values.
    pub fn check_logit_layout(&self, logit_count: usize, batch: usize, time: usize, classes: usize) -> (r:
        Result<(), CtcError>)
        ensures
            r == logit_layout(self.entries().len(), logit_count, batch, time, classes),
    {
        let class_count = self.class_count()?;
        if classes != class_count {
            return Err(CtcError::ClassCountMismatch);
        }
        let expected = match batch.checked_mul(time) {
            Some(elements) => match elements.checked_mul(classes) {
                Some(total) => total,
                None => return Err(CtcError::ArithmeticOverflow),
            },
            None => return Err(CtcError::ArithmeticOverflow),
        };
        if logit_count != expected {
            return Err(CtcError::InvalidLogitCount);
        }
        Ok(())
    }

    /// The entry of a class: none for the blank or past the last entry.
    pub fn entry_for_class(&self, class: usize) -> (entry: Option<&str>)
        ensures
            match entry {
                Some(e) => entry_for(self.entries(), self.spec_blank_index(), class) == Some(e@),
                None => entry_for(self.entries(), self.spec_blank_index(), class) is None,
            },
    {
        if class == self.blank_index {
            return None;
        }
        let index = if class < self.blank_index {
            class
        } else {
            class - 1
        };
        if index < self.entries.len() {
            Some(self.entries[index].as_str())
        } else {
            None
        }
    }
}

} // verus!
