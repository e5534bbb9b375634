//! The pull-based driver: holds the input, the state and the queue of
//! completed tokens, and hands the tokens out one at a time.
use vstd::prelude::*;
use std::collections::VecDeque;
use crate::laws::lemma_run_ends_once;
use crate::machine::{error_positions, measure, run, run_errors, tokenize, valid, Phase};
use crate::states::TokenizerState;
use crate::token::{Token, TokenView, views};

verus! {

/// A tokenizer over one fully buffered input.
pub struct Tokenizer {
    input: Vec<char>,
    state: TokenizerState,
    tokens: VecDeque<Token>,
    errors: Vec<usize>,
}

pub open spec fn position(p: usize) -> int {
    p as int
}

/// Input positions as integers.
pub open spec fn positions(ps: Seq<usize>) -> Seq<int> {
    ps.map_values(|p: usize| position(p))
}

/// The characters of `s`, in order.
fn chars_of(s: &str) -> (r: Vec<char>)
    ensures
        r@ == s@,
{
    let mut r: Vec<char> = Vec::new();
    for c in it: s.chars()
        invariant
            r@ == it.seq().take(it.index() as int),
    {
        r.push(c);
    }
    r
}

impl Tokenizer {
    /// The tokenizer's own invariant: the position is within the input.
    pub closed spec fn wf(&self) -> bool {
        valid(self.state@, self.input@)
    }

    /// The input being tokenized.
    pub closed spec fn input(&self) -> Seq<char> {
        self.input@
    }

    /// The tokens that are still to be handed out: those queued, then
    /// those the state machine will produce.
    pub closed spec fn pending(&self) -> Seq<TokenView> {
        views(self.tokens@) + run(self.state@, self.input@)
    }

    /// The positions of the parse errors that the steps taken so far
    /// reported.
    pub closed spec fn recorded(&self) -> Seq<int> {
        positions(self.errors@)
    }

    /// The positions of the parse errors that the steps still to come
    /// will report.
    pub closed spec fn pending_errors(&self) -> Seq<int> {
        run_errors(self.state@, self.input@)
    }

    /// A tokenizer at the start of `input`: it will hand out exactly the
    /// token sequence of the input, and report its parse errors.
    pub fn new(input: &str) -> (r: Tokenizer)
        ensures
            r.wf(),
            r.input() == input@,
            r.pending() == tokenize(input@),
            r.recorded() == Seq::<int>::empty(),
            r.pending_errors() == error_positions(input@),
    {
        let r = Tokenizer {
            input: chars_of(input),
            state: TokenizerState::new(),
            tokens: VecDeque::new(),
            errors: Vec::new(),
        };
        assert(views(r.tokens@) =~= Seq::empty());
        assert(r.pending() =~= tokenize(input@));
        assert(r.recorded() =~= Seq::<int>::empty());
        r
    }

    /// The positions in the input (in characters) of the parse errors met
    /// so far; once the end-of-input token has been handed out, all of
    /// them.
    pub fn parse_errors(&self) -> (r: &Vec<usize>)
        ensures
            positions(r@) == self.recorded(),
    {
        &self.errors
    }

    /// Advances the state machine by one step, queueing what it completes.
    fn step(&mut self)
        requires
            old(self).wf(),
            old(self).state.phase != Phase::EOF,
        ensures
            final(self).wf(),
            final(self).input == old(self).input,
            final(self).pending() == old(self).pending(),
            final(self).recorded() + final(self).pending_errors() == old(self).recorded() + old(
                self,
            ).pending_errors(),
            measure(final(self).state@, final(self).input@) < measure(
                old(self).state@,
                old(self).input@,
            ),
    {
        let ghost st0 = self.state@;
        let ghost q0 = self.tokens@;
        let ghost e0 = self.recorded();
        if self.state.parse_error_at(&self.input) {
            self.errors.push(self.state.pos);
            assert(self.recorded() =~= e0.push(st0.pos));
        } else {
            assert(self.recorded() =~= e0);
        }
        self.state.step(&self.input, &mut self.tokens);
        assert(e0 + run_errors(st0, self.input@) =~= self.recorded() + run_errors(
            self.state@,
            self.input@,
        ));
        assert(views(q0) + run(st0, self.input@) =~= views(self.tokens@) + run(
            self.state@,
            self.input@,
        ));
    }

    /// The next token, or `None` once the end-of-input token has been
    /// handed out; by then every parse error has been recorded.
    pub fn next(&mut self) -> (r: Option<Token>)
        requires
            old(self).wf(),
        ensures
            final(self).wf(),
            final(self).input() == old(self).input(),
            final(self).recorded() + final(self).pending_errors() == old(self).recorded() + old(
                self,
            ).pending_errors(),
            r is None ==> final(self).pending_errors() == Seq::<int>::empty(),
            match r {
                Some(t) => {
                    &&& old(self).pending().len() > 0
                    &&& t@ == old(self).pending()[0]
                    &&& final(self).pending() == old(self).pending().drop_first()
                },
                None => old(self).pending().len() == 0 && final(self).pending().len() == 0,
            },
    {
        let ghost p0 = self.pending();
        let ghost e0 = self.recorded() + self.pending_errors();
        while self.tokens.len() == 0 && self.state.phase != Phase::EOF
            invariant
                self.wf(),
                self.input() == old(self).input(),
                self.pending() == p0,
                self.recorded() + self.pending_errors() == e0,
            decreases measure(self.state@, self.input@),
        {
            self.step();
        }
        let ghost q = self.tokens@;
        let r = self.tokens.pop_front();
        match &r {
            Some(_) => {
                assert(views(self.tokens@) + run(self.state@, self.input@) =~= p0.drop_first());
            },
            None => {
                assert(views(q) =~= Seq::empty());
                if self.state.phase != Phase::EOF {
                    proof {
                        lemma_run_ends_once(self.state@, self.input@);
                    }
                }
                assert(self.pending_errors() =~= Seq::<int>::empty());
            },
        }
        r
    }
}

/// The whole token sequence of `input`, ending with the end-of-input
/// token.
pub fn tokenize_all(input: &str) -> (r: Vec<Token>)
    ensures
        views(r@) == tokenize(input@),
{
    let mut t = Tokenizer::new(input);
    let mut r: Vec<Token> = Vec::new();
    loop
        invariant
            t.wf(),
            views(r@) + t.pending() == tokenize(input@),
        decreases t.pending().len(),
    {
        let ghost p = t.pending();
        match t.next() {
            Some(tok) => {
                r.push(tok);
                assert(views(r@) + t.pending() =~= tokenize(input@)) by {
                    assert(views(r@) =~= views(r@.drop_last()).push(tok@));
                    assert(p =~= seq![tok@] + p.drop_first());
                }
            },
            None => {
                assert(views(r@) =~= tokenize(input@));
                return r;
            },
        }
    }
}

/// The whole token sequence of `input`, and the positions of its parse
/// errors.
pub fn tokenize_with_errors(input: &str) -> (r: (Vec<Token>, Vec<usize>))
    ensures
        views(r.0@) == tokenize(input@),
        positions(r.1@) == error_positions(input@),
{
    let mut t = Tokenizer::new(input);
    let mut r: Vec<Token> = Vec::new();
    loop
        invariant
            t.wf(),
            views(r@) + t.pending() == tokenize(input@),
            t.recorded() + t.pending_errors() == error_positions(input@),
        decreases t.pending().len(),
    {
        let ghost p = t.pending();
        match t.next() {
            Some(tok) => {
                r.push(tok);
                assert(views(r@) + t.pending() =~= tokenize(input@)) by {
                    assert(views(r@) =~= views(r@.drop_last()).push(tok@));
                    assert(p =~= seq![tok@] + p.drop_first());
                }
            },
            None => {
                assert(views(r@) =~= tokenize(input@));
                assert(t.recorded() =~= error_positions(input@));
                let errors = t.parse_errors().clone();
                return (r, errors);
            },
        }
    }
}

} // verus!
