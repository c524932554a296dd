//! The greedy decoding loop of the translation engine, without the model:
//! which token to feed next and at which position, when to stop, and what
//! the decoded sequence is. The caller runs the model on the token this
//! module names and hands back the token the model chose.

use vstd::prelude::*;

verus! {

/// The most tokens a translation is decoded to.
pub const MAX_STEPS: usize = 1000;

/// The special tokens of a decoder.
#[derive(Debug, Clone, Copy, PartialEq, Eq, Structural)]
pub struct DecodeConfig {
    /// The token every decoded sequence starts from.
    pub start_token: u32,
    /// The token that ends a sequence.
    pub eos_token: u32,
    /// The token that ends a sequence where the model was forced to end.
    pub forced_eos_token: u32,
}

impl DecodeConfig {
    /// Whether a token ends the sequence.
    pub open spec fn ends(self, token: u32) -> bool {
        token == self.eos_token || token == self.forced_eos_token
    }

    /// Whether a token ends the sequence.
    pub fn is_end(&self, token: u32) -> (end: bool)
        ensures
            end == self.ends(token),
    {
        token == self.eos_token || token == self.forced_eos_token
    }

    /// The input of the encoder: the tokens of the text, closed by the end
    /// token.
    pub fn encoder_input(&self, text_tokens: Vec<u32>) -> (input: Vec<u32>)
        ensures
            input@ == text_tokens@.push(self.eos_token),
    {
        let mut input = text_tokens;
        input.push(self.eos_token);
        input
    }
}

/// What the model's choices decode to: the tokens chosen before the first
/// end token, and no more than [`MAX_STEPS`] of them.
pub open spec fn decoded(config: DecodeConfig, chosen: Seq<u32>) -> Seq<u32>
    decreases chosen.len(),
{
    if chosen.len() == 0 {
        chosen
    } else {
        let before = decoded(config, chosen.drop_last());
        if before.len() < chosen.len() - 1 || before.len() >= MAX_STEPS || config.ends(
            chosen.last(),
        ) {
            // Decoding had stopped before, or stops here.
            before
        } else {
            before.push(chosen.last())
        }
    }
}

/// Whether decoding has stopped after these choices of the model: an end
/// token was among them, or the step limit is reached.
pub open spec fn stopped(config: DecodeConfig, chosen: Seq<u32>) -> bool {
    decoded(config, chosen).len() < chosen.len() || chosen.len() >= MAX_STEPS
}

/// A decoding in progress.
pub struct Decoding {
    config: DecodeConfig,
    tokens: Vec<u32>,
    ended: bool,
    chosen: Ghost<Seq<u32>>,
}

impl Decoding {
    /// The invariant every method keeps.
    pub closed spec fn wf(&self) -> bool {
        &&& self.tokens@.len() >= 1
        &&& self.tokens@[0] == self.config.start_token
        &&& self.tokens@.skip(1) == decoded(self.config, self.chosen@)
        &&& self.tokens@.len() <= MAX_STEPS + 1
        &&& self.ended == (decoded(self.config, self.chosen@).len() < self.chosen@.len())
    }

    /// The special tokens in use.
    pub closed spec fn config(&self) -> DecodeConfig {
        self.config
    }

    /// The tokens the model has chosen so far, in order.
    pub closed spec fn chosen(&self) -> Seq<u32> {
        self.chosen@
    }

    /// A decoding at its start: the model has chosen nothing yet.
    pub fn new(config: DecodeConfig) -> (decoding: Decoding)
        ensures
            decoding.wf(),
            decoding.config() == config,
            decoding.chosen() == Seq::<u32>::empty(),
    {
        let mut tokens = Vec::new();
        tokens.push(config.start_token);
        let decoding = Decoding { config, tokens, ended: false, chosen: Ghost(Seq::empty()) };
        assert(decoding.tokens@.skip(1) =~= Seq::<u32>::empty());
        decoding
    }

    /// Whether decoding has stopped.
    pub fn is_finished(&self) -> (finished: bool)
        requires
            self.wf(),
        ensures
            finished == stopped(self.config(), self.chosen()),
    {
        proof {
            lemma_decoded_bounds(self.config, self.chosen@);
        }
        self.ended || self.tokens.len() > MAX_STEPS
    }

    /// The token to feed to the model next: the start token at first, then
    /// the token the model chose last. Earlier tokens are not fed again;
    /// the model remembers them.
    pub fn next_token(&self) -> (token: u32)
        requires
            self.wf(),
        ensures
            token == if decoded(self.config(), self.chosen()).len() == 0 {
                self.config().start_token
            } else {
                decoded(self.config(), self.chosen()).last()
            },
    {
        let last = self.tokens.len() - 1;
        assert(last > 0 ==> self.tokens@[last as int] == self.tokens@.skip(1)[last - 1]);
        self.tokens[last]
    }

    /// The position of [`Decoding::next_token`] in the decoded sequence,
    /// counting the start token: the number of tokens fed before it.
    pub fn position(&self) -> (position: usize)
        requires
            self.wf(),
        ensures
            position == decoded(self.config(), self.chosen()).len(),
            position <= MAX_STEPS,
    {
        self.tokens.len() - 1
    }

    /// Takes the token the model chose. An end token stops the decoding
    /// and is not kept; a token that comes after decoding has stopped
    /// changes nothing. Returns whether decoding goes on.
    pub fn accept(&mut self, token: u32) -> (more: bool)
        requires
            old(self).wf(),
        ensures
            final(self).wf(),
            final(self).config() == old(self).config(),
            final(self).chosen() == old(self).chosen().push(token),
            more == !stopped(final(self).config(), final(self).chosen()),
    {
        proof {
            lemma_decoded_bounds(self.config, self.chosen@);
            assert(self.chosen@.push(token).drop_last() =~= self.chosen@);
        }
        let ghost before = self.tokens@;
        if self.tokens.len() > MAX_STEPS || self.config.is_end(token) {
            // Not kept: from here on more was chosen than is decoded.
            self.ended = true;
        } else if !self.ended {
            self.tokens.push(token);
            assert(self.tokens@.skip(1) =~= before.skip(1).push(token));
        }
        self.chosen = Ghost(self.chosen@.push(token));
        !self.ended && self.tokens.len() <= MAX_STEPS
    }

    /// The decoded tokens, without the start token.
    pub fn output(&self) -> (output: Vec<u32>)
        requires
            self.wf(),
        ensures
            output@ == decoded(self.config(), self.chosen()),
    {
        let mut output = Vec::new();
        let mut i: usize = 1;
        while i < self.tokens.len()
            invariant
                1 <= i <= self.tokens@.len(),
                output@ == self.tokens@.subrange(1, i as int),
            decreases self.tokens@.len() - i,
        {
            output.push(self.tokens[i]);
            i += 1;
            assert(output@ =~= self.tokens@.subrange(1, i as int));
        }
        assert(self.tokens@.subrange(1, i as int) =~= self.tokens@.skip(1));
        output
    }
}

/// What is decoded is never longer than what was chosen, nor than the step
/// limit; and once decoding has stopped, further choices change nothing.
pub proof fn lemma_decoded_bounds(config: DecodeConfig, chosen: Seq<u32>)
    ensures
        decoded(config, chosen).len() <= chosen.len(),
        decoded(config, chosen).len() <= MAX_STEPS,
    decreases chosen.len(),
{
    if chosen.len() > 0 {
        lemma_decoded_bounds(config, chosen.drop_last());
    }
}

/// No end token is ever part of what is decoded, and what is decoded is a
/// prefix of what the model chose.
pub proof fn lemma_decoded_is_clean_prefix(config: DecodeConfig, chosen: Seq<u32>, i: int)
    requires
        0 <= i < decoded(config, chosen).len(),
    ensures
        i < chosen.len(),
        decoded(config, chosen)[i] == chosen[i],
        !config.ends(decoded(config, chosen)[i]),
    decreases chosen.len(),
{
    lemma_decoded_bounds(config, chosen);
    if chosen.len() > 0 {
        let before = decoded(config, chosen.drop_last());
        lemma_decoded_bounds(config, chosen.drop_last());
        if i < before.len() {
            lemma_decoded_is_clean_prefix(config, chosen.drop_last(), i);
        }
    }
}

/// Once decoding has stopped, whatever else the model might choose changes
/// nothing.
pub proof fn lemma_stopped_is_final(config: DecodeConfig, chosen: Seq<u32>, token: u32)
    requires
        stopped(config, chosen),
    ensures
        decoded(config, chosen.push(token)) == decoded(config, chosen),
        stopped(config, chosen.push(token)),
{
    lemma_decoded_bounds(config, chosen);
    assert(chosen.push(token).drop_last() =~= chosen);
}

} // verus!
