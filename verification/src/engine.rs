//! The typing-validation state machine: per-word attempt state, keystroke
//! interpretation, mistake counting, and the retry-from-zero discipline.
//!
//! The engine itself is pure: it maps an attempt state and one keystroke to
//! the next state and a rendering action. The caller owns the terminal,
//! feeds keystrokes in, and performs the actions.

use vstd::prelude::*;

verus! {

/// A keystroke, as the engine sees it: the commit key (give-up), a printable
/// character, or anything else (ignored, does not consume a turn).
pub enum KeyEvent {
    Enter,
    Char(u8),
    Other,
}

/// What the caller must render after one keystroke was interpreted.
pub enum Action {
    /// The keystroke is not part of the vocabulary: render nothing.
    Ignored,
    /// The commit key was pressed: reveal the correct word and end the
    /// attempt with the give-up sentinel count.
    GaveUp,
    /// The character matched: echo it and mark its placeholder correct.
    /// `finished` says the word is now complete and the attempt over.
    Advanced { finished: bool },
    /// The character did not match: echo it, mark its placeholder wrong,
    /// then erase `erased` characters back to position zero (the retry
    /// animation) and show the new mistake `count`. When `fatal`, the
    /// threshold was exceeded: reveal the word and end the attempt.
    Mistake { erased: usize, count: u32, fatal: bool },
}

/// The mathematical state of one word attempt.
pub struct AttemptModel {
    pub word: Seq<u8>,
    pub pos: int,
    pub mistakes: int,
    pub done: bool,
}

/// Well-formedness of an attempt state: the word is non-empty, the position
/// stays within the word, and the mistake counter stays within its cap —
/// at most 10 while the attempt is in progress, at most 11 once it ended.
pub open spec fn wf_model(m: AttemptModel) -> bool {
    &&& 1 <= m.word.len()
    &&& 0 <= m.pos <= m.word.len()
    &&& 0 <= m.mistakes <= 11
    &&& !m.done ==> m.pos < m.word.len() && m.mistakes <= 10
}

/// The state of a fresh attempt at `word`.
pub open spec fn init_model(word: Seq<u8>) -> AttemptModel {
    AttemptModel { word: word, pos: 0, mistakes: 0, done: false }
}

/// One step of the state machine, for an attempt still in progress.
///
/// The commit key gives up: the count becomes the sentinel 10 and the
/// attempt ends. A matching character advances the position, completing the
/// attempt when it reaches the word's length. A wrong character resets the
/// position to zero and counts one mistake, ending the attempt once the
/// count exceeds 10. Any other key changes nothing.
pub open spec fn step_spec(m: AttemptModel, k: KeyEvent) -> AttemptModel {
    match k {
        KeyEvent::Enter => AttemptModel { mistakes: 10, done: true, ..m },
        KeyEvent::Char(c) => {
            if c == m.word[m.pos] {
                AttemptModel { pos: m.pos + 1, done: m.pos + 1 == m.word.len(), ..m }
            } else {
                AttemptModel { pos: 0, mistakes: m.mistakes + 1, done: m.mistakes + 1 > 10, ..m }
            }
        }
        KeyEvent::Other => m,
    }
}

/// The rendering action that accompanies one step.
pub open spec fn action_spec(m: AttemptModel, k: KeyEvent) -> Action {
    match k {
        KeyEvent::Enter => Action::GaveUp,
        KeyEvent::Char(c) => {
            if c == m.word[m.pos] {
                Action::Advanced { finished: m.pos + 1 == m.word.len() }
            } else {
                Action::Mistake {
                    erased: (m.pos + 1) as usize,
                    count: (m.mistakes + 1) as u32,
                    fatal: m.mistakes + 1 > 10,
                }
            }
        }
        KeyEvent::Other => Action::Ignored,
    }
}

/// Running an in-progress attempt through a sequence of keystrokes, stopping
/// as soon as the attempt ends.
pub open spec fn run_spec(m: AttemptModel, keys: Seq<KeyEvent>) -> AttemptModel
    decreases keys.len(),
{
    if keys.len() == 0 || m.done {
        m
    } else {
        run_spec(step_spec(m, keys[0]), keys.skip(1))
    }
}

/// The keystrokes that type the rest of the word correctly: one character
/// key per remaining character, in order.
pub open spec fn correct_keys(m: AttemptModel) -> Seq<KeyEvent> {
    Seq::new((m.word.len() - m.pos) as nat, |i: int| KeyEvent::Char(m.word[m.pos + i]))
}

/// How far an in-progress attempt can be from ending: an upper bound on the
/// number of effective keystrokes it can still absorb.
pub open spec fn steps_left(m: AttemptModel) -> int {
    (11 - m.mistakes) * m.word.len() + (m.word.len() - m.pos)
}

/// Every step preserves well-formedness.
pub proof fn lemma_step_preserves_wf(m: AttemptModel, k: KeyEvent)
    requires
        wf_model(m),
        !m.done,
    ensures
        wf_model(step_spec(m, k)),
{
}

/// The mistake counter never decreases across a step, and stays within its
/// bounds: at most 10 while the attempt goes on, at most 11 once it ended.
pub proof fn lemma_mistakes_monotone_and_bounded(m: AttemptModel, k: KeyEvent)
    requires
        wf_model(m),
        !m.done,
    ensures
        step_spec(m, k).mistakes >= m.mistakes,
        0 <= step_spec(m, k).mistakes <= 11,
        !step_spec(m, k).done ==> step_spec(m, k).mistakes <= 10,
{
}

/// The commit key forces the attempt to end at once with the give-up
/// sentinel count of 10, whatever was typed correctly before it.
pub proof fn lemma_enter_forces_give_up(m: AttemptModel)
    requires
        wf_model(m),
        !m.done,
    ensures
        step_spec(m, KeyEvent::Enter).done,
        step_spec(m, KeyEvent::Enter).mistakes == 10,
{
}

/// A wrong character always empties the attempt back to position zero, and
/// the next character key is graded against the first character of the
/// word, never against the pre-mistake position.
pub proof fn lemma_mistake_restarts_from_zero(m: AttemptModel, c: u8, c2: u8)
    requires
        wf_model(m),
        !m.done,
        c != m.word[m.pos],
    ensures
        step_spec(m, KeyEvent::Char(c)).pos == 0,
        step_spec(m, KeyEvent::Char(c)).word == m.word,
        !step_spec(m, KeyEvent::Char(c)).done ==> (step_spec(
            step_spec(m, KeyEvent::Char(c)),
            KeyEvent::Char(c2),
        ).pos == 1 <==> c2 == m.word[0]),
{
}

/// Typing every remaining character of the word correctly ends the attempt
/// with the position at the word's length and the mistake count unchanged.
pub proof fn lemma_typing_rest_correctly_completes(m: AttemptModel)
    requires
        wf_model(m),
        !m.done,
    ensures
        run_spec(m, correct_keys(m)).done,
        run_spec(m, correct_keys(m)).pos == m.word.len(),
        run_spec(m, correct_keys(m)).mistakes == m.mistakes,
        run_spec(m, correct_keys(m)).word == m.word,
    decreases m.word.len() - m.pos,
{
    let keys = correct_keys(m);
    let m2 = step_spec(m, keys[0]);
    if m2.done {
        assert(keys.len() == 1);
        assert(run_spec(m, keys) == run_spec(m2, keys.skip(1)));
    } else {
        lemma_step_preserves_wf(m, keys[0]);
        assert(keys.skip(1) =~= correct_keys(m2));
        lemma_typing_rest_correctly_completes(m2);
    }
}

/// A flawless attempt: typing a non-empty word correctly from the start
/// ends the attempt with zero mistakes and the position at the word's
/// length.
pub proof fn lemma_flawless_attempt_scores_zero(word: Seq<u8>)
    requires
        word.len() >= 1,
    ensures
        run_spec(init_model(word), correct_keys(init_model(word))).done,
        run_spec(init_model(word), correct_keys(init_model(word))).pos == word.len(),
        run_spec(init_model(word), correct_keys(init_model(word))).mistakes == 0,
{
    lemma_typing_rest_correctly_completes(init_model(word));
}

/// Every effective keystroke (commit or character) either ends the attempt
/// or strictly lowers the bound on the steps left, which stays
/// non-negative: an attempt cannot go on past its bound.
pub proof fn lemma_effective_key_makes_progress(m: AttemptModel, k: KeyEvent)
    requires
        wf_model(m),
        !m.done,
        !(k is Other),
    ensures
        steps_left(m) >= 1,
        steps_left(step_spec(m, k)) >= 0,
        step_spec(m, k).done || steps_left(step_spec(m, k)) < steps_left(m),
{
    let len = m.word.len() as int;
    assert((11 - m.mistakes) * len >= 1 * len) by (nonlinear_arith)
        requires
            11 - m.mistakes >= 1,
            len >= 1,
    ;
    let s = step_spec(m, k);
    assert((11 - s.mistakes) * len >= 0) by (nonlinear_arith)
        requires
            11 - s.mistakes >= 0,
            len >= 1,
    ;
    if k is Char && !s.done && s.mistakes == m.mistakes + 1 {
        assert((11 - m.mistakes) * len == (11 - s.mistakes) * len + len) by (nonlinear_arith)
            requires
                s.mistakes == m.mistakes + 1,
        ;
    }
}

/// Any attempt ends within a finite number of effective keystrokes: once a
/// run of commit or character keys is at least as long as the bound on the
/// steps left, the attempt is done.
pub proof fn lemma_attempt_terminates(m: AttemptModel, keys: Seq<KeyEvent>)
    requires
        wf_model(m),
        forall|i: int| 0 <= i < keys.len() ==> !(#[trigger] keys[i] is Other),
        keys.len() >= steps_left(m),
    ensures
        run_spec(m, keys).done,
    decreases keys.len(),
{
    if !m.done {
        lemma_effective_key_makes_progress(m, keys[0]);
        let m2 = step_spec(m, keys[0]);
        lemma_step_preserves_wf(m, keys[0]);
        if m2.done {
            lemma_done_stays(m2, keys.skip(1));
        } else {
            lemma_attempt_terminates(m2, keys.skip(1));
        }
    }
}

/// A finished attempt stays finished: running more keystrokes changes
/// nothing.
pub proof fn lemma_done_stays(m: AttemptModel, keys: Seq<KeyEvent>)
    requires
        m.done,
    ensures
        run_spec(m, keys) == m,
{
}

/// The placeholder row rendered for a word: one tilde glyph per character.
pub fn placeholder_row(len: usize) -> (r: Vec<u8>)
    ensures
        r@.len() == len,
        forall|i: int| 0 <= i < len ==> r@[i] == 126u8,
{
    let mut r: Vec<u8> = Vec::new();
    let mut i: usize = 0;
    while i < len
        invariant
            i <= len,
            r@.len() == i,
            forall|j: int| 0 <= j < i ==> r@[j] == 126u8,
        decreases len - i,
    {
        r.push(126u8);
        i += 1;
    }
    r
}

/// The in-progress answer for one word: how many characters have been
/// accepted so far, and the target word itself.
pub struct Answer {
    pub pos: usize,
    pub word: Vec<u8>,
}

impl Answer {
    /// Feed one typed character: the position advances whether or not the
    /// character was right, and the result says whether it matched the
    /// expected character at the old position.
    pub fn append_char(&mut self, c: u8) -> (r: Result<(), ()>)
        requires
            old(self).pos < old(self).word.len(),
        ensures
            final(self).word == old(self).word,
            final(self).pos == old(self).pos + 1,
            r is Ok <==> c == old(self).word[old(self).pos as int],
    {
        let c_correct = self.word[self.pos];
        self.pos += 1;
        if c == c_correct {
            Ok(())
        } else {
            Err(())
        }
    }
}

/// One interactive attempt at a word: the answer typed so far and the
/// mistake counter, driven one keystroke at a time until it is done.
pub struct Attempt {
    pub answer: Answer,
    pub mistakes: u32,
    pub done: bool,
}

impl View for Attempt {
    type V = AttemptModel;

    open spec fn view(&self) -> AttemptModel {
        AttemptModel {
            word: self.answer.word@,
            pos: self.answer.pos as int,
            mistakes: self.mistakes as int,
            done: self.done,
        }
    }
}

impl Attempt {
    /// Well-formedness of the attempt, as of its mathematical state.
    pub open spec fn wf(&self) -> bool {
        wf_model(self@)
    }

    /// Begin a fresh attempt at a non-empty word.
    pub fn new(word: Vec<u8>) -> (a: Attempt)
        requires
            word@.len() >= 1,
        ensures
            a@ == init_model(word@),
            a.wf(),
    {
        Attempt { answer: Answer { pos: 0, word }, mistakes: 0, done: false }
    }

    /// Interpret one keystroke of an attempt still in progress: the state
    /// advances as `step_spec` says, and the returned action tells the
    /// caller what to render.
    pub fn step(&mut self, k: KeyEvent) -> (act: Action)
        requires
            old(self).wf(),
            !old(self)@.done,
        ensures
            final(self).wf(),
            final(self)@ == step_spec(old(self)@, k),
            act == action_spec(old(self)@, k),
    {
        match k {
            KeyEvent::Enter => {
                self.mistakes = 10;
                self.done = true;
                Action::GaveUp
            }
            KeyEvent::Char(c) => {
                match self.answer.append_char(c) {
                    Ok(()) => {
                        if self.answer.pos == self.answer.word.len() {
                            self.done = true;
                            Action::Advanced { finished: true }
                        } else {
                            Action::Advanced { finished: false }
                        }
                    }
                    Err(()) => {
                        let erased = self.answer.pos;
                        self.answer.pos = 0;
                        self.mistakes = self.mistakes + 1;
                        let fatal = self.mistakes > 10;
                        if fatal {
                            self.done = true;
                        }
                        Action::Mistake { erased, count: self.mistakes, fatal }
                    }
                }
            }
            KeyEvent::Other => Action::Ignored,
        }
    }

    /// Whether the attempt has ended.
    pub fn is_done(&self) -> (r: bool)
        ensures
            r == self@.done,
    {
        self.done
    }

    /// The mistake count of a finished attempt: the value reported to the
    /// caller (10 doubles as the give-up sentinel).
    pub fn result_count(&self) -> (n: u32)
        requires
            self@.done,
        ensures
            n as int == self@.mistakes,
    {
        self.mistakes
    }
}

} // verus!
