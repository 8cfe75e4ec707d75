//! The input reader: a circular history of the incoming audio from which
//! overlapping analysis windows are read in place.
//!
//! The history keeps `history_length + window_length` samples. Whatever is
//! written into its last `window_length` slots is written into its first
//! `window_length` slots as well, so that the most recent window always lies
//! in one piece just below the write cursor.
use vstd::prelude::*;
use crate::error::InitError;
use crate::memory::Arena;

verus! {

/// Sizes that govern the reader, all in samples.
#[derive(Clone, Copy, Debug, PartialEq, Eq, Structural)]
pub struct Config {
    /// Samples delivered with each audio block.
    pub block_length: usize,
    /// Samples in an analysis window.
    pub window_length: usize,
    /// Samples from the start of one window to the start of the next.
    pub hop_length: usize,
    /// Samples after which the write cursor wraps; also the warm-up span,
    /// during which no window is due.
    pub history_length: usize,
}

impl Config {
    /// Slots in the history buffer.
    pub open spec fn capacity(self) -> nat {
        (self.history_length + self.window_length) as nat
    }

    /// Blocks are not empty; window, hop and history are whole numbers of
    /// blocks, window and hop of at least one; a window fits the history;
    /// and a window and a hop together fit the buffer.
    pub open spec fn valid(self) -> bool {
        &&& self.block_length > 0
        &&& self.window_length > 0
        &&& self.window_length % self.block_length == 0
        &&& self.hop_length > 0
        &&& self.hop_length % self.block_length == 0
        &&& self.history_length % self.block_length == 0
        &&& self.window_length <= self.history_length
        &&& self.window_length + self.hop_length <= self.capacity()
    }

    /// The first rule of `valid` that the configuration breaks, if any.
    pub open spec fn fault(self) -> Option<InitError> {
        if self.block_length == 0 {
            Some(InitError::EmptyBlock)
        } else if self.window_length == 0 || self.window_length % self.block_length != 0 {
            Some(InitError::WindowNotWholeBlocks)
        } else if self.hop_length == 0 || self.hop_length % self.block_length != 0 {
            Some(InitError::HopNotWholeBlocks)
        } else if self.history_length % self.block_length != 0 {
            Some(InitError::HistoryNotWholeBlocks)
        } else if self.window_length > self.history_length {
            Some(InitError::WindowExceedsHistory)
        } else if self.hop_length > self.history_length {
            Some(InitError::HopExceedsHistory)
        } else {
            None
        }
    }

    /// Checks the configuration against the rules of `valid`, and names the
    /// first one that is broken.
    pub fn check(&self) -> (result: Result<(), InitError>)
        ensures
            result is Ok <==> self.valid(),
            result == match self.fault() {
                Some(e) => Err::<(), InitError>(e),
                None => Ok::<(), InitError>(()),
            },
    {
        if self.block_length == 0 {
            Err(InitError::EmptyBlock)
        } else if self.window_length == 0 || self.window_length % self.block_length != 0 {
            Err(InitError::WindowNotWholeBlocks)
        } else if self.hop_length == 0 || self.hop_length % self.block_length != 0 {
            Err(InitError::HopNotWholeBlocks)
        } else if self.history_length % self.block_length != 0 {
            Err(InitError::HistoryNotWholeBlocks)
        } else if self.window_length > self.history_length {
            Err(InitError::WindowExceedsHistory)
        } else if self.hop_length > self.history_length {
            Err(InitError::HopExceedsHistory)
        } else {
            Ok(())
        }
    }
}

/// The reader as a mathematical value: its configuration and every sample it
/// has been given, oldest first.
pub ghost struct ReaderState<T> {
    pub config: Config,
    pub history: Seq<T>,
}

impl<T> ReaderState<T> {
    /// The configuration meets its rules.
    pub open spec fn wf(self) -> bool {
        self.config.valid()
    }

    /// The reader has seen a full history and may hand out windows.
    pub open spec fn warmed_up(self) -> bool {
        self.history.len() >= self.config.history_length
    }

    /// The latest `window_length` samples.
    pub open spec fn window(self) -> Seq<T> {
        self.history.subrange(
            self.history.len() - self.config.window_length,
            self.history.len() as int,
        )
    }

    /// The reader after one more block.
    pub open spec fn next(self, block: Seq<T>) -> ReaderState<T> {
        ReaderState { config: self.config, history: self.history + block }
    }

    /// A window is due after `block` when the reader was warmed up before it
    /// and the number of samples seen is then a multiple of the hop.
    pub open spec fn due(self, block: Seq<T>) -> bool {
        self.warmed_up() && self.next(block).history.len() % (self.config.hop_length as nat) == 0
    }
}

/// Circular history of the input with its write cursor, hop phase and
/// warm-up count.
pub struct Reader<'a, T> {
    buffer: &'a mut [T],
    config: Config,
    index: usize,
    hop_counter: usize,
    warmup_counter: usize,
    history: Ghost<Seq<T>>,
}

impl<'a, T: Copy> View for Reader<'a, T> {
    type V = ReaderState<T>;

    closed spec fn view(&self) -> ReaderState<T> {
        ReaderState { config: self.config, history: self.history@ }
    }
}

/// Adding `d` to a number moves its remainder by `d`, around the modulus.
proof fn lemma_mod_step(x: int, d: int, m: int)
    requires
        0 <= x,
        0 <= d <= m,
        0 < m,
    ensures
        (x + d) % m == if x % m + d < m {
            x % m + d
        } else {
            x % m + d - m
        },
{
    let r = x % m;
    let q = x / m;
    vstd::arithmetic::div_mod::lemma_fundamental_div_mod(x, m);
    vstd::arithmetic::div_mod::lemma_mod_bound(x, m);
    if r + d < m {
        vstd::arithmetic::div_mod::lemma_fundamental_div_mod_converse(x + d, m, q, r + d);
    } else {
        assert(m * (q + 1) == m * q + m) by (nonlinear_arith);
        vstd::arithmetic::div_mod::lemma_fundamental_div_mod_converse(x + d, m, q + 1, r + d - m);
    }
}

/// A multiple of `b` that lies below another one lies a whole `b` below it.
proof fn lemma_aligned_gap(a: int, c: int, b: int)
    requires
        0 <= a < c,
        0 < b,
        a % b == 0,
        c % b == 0,
    ensures
        a + b <= c,
        (a + b) % b == 0,
{
    vstd::arithmetic::div_mod::lemma_fundamental_div_mod(a, b);
    vstd::arithmetic::div_mod::lemma_fundamental_div_mod(c, b);
    let qa = a / b;
    let qc = c / b;
    assert(qa < qc) by (nonlinear_arith)
        requires
            b * qa < b * qc,
            b > 0,
    ;
    assert(b * (qa + 1) <= b * qc) by (nonlinear_arith)
        requires
            qa + 1 <= qc,
            b > 0,
    ;
    assert(b * (qa + 1) == b * qa + b) by (nonlinear_arith);
    lemma_mod_step(a, b, b);
}

impl<'a, T: Copy> Reader<'a, T> {
    /// Lower end of the part of the buffer that holds the latest samples in
    /// order.
    spec fn live_from(&self) -> int {
        if self.index <= self.config.history_length {
            0
        } else {
            self.index - self.config.history_length
        }
    }

    /// The fields agree with the view: the counters follow the number of
    /// samples seen, and the buffer below the cursor holds the latest samples.
    pub closed spec fn consistent(&self) -> bool {
        let c = self.config;
        let len = self.history@.len() as int;
        &&& self.buffer@.len() == c.capacity()
        &&& c.capacity() <= usize::MAX
        &&& c.window_length <= self.index < c.capacity()
        &&& self.index % c.block_length == 0
        &&& self.hop_counter == len % (c.hop_length as int)
        &&& self.hop_counter % c.block_length == 0
        &&& if len < c.history_length {
            self.warmup_counter * c.block_length == c.history_length - len
        } else {
            self.warmup_counter == 0
        }
        &&& forall|p: int|
            self.live_from() <= p < self.index && self.index - p <= len
                ==> #[trigger] self.buffer@[p] == self.history@[len - (self.index - p)]
        &&& forall|p: int|
            0 <= p < self.index - c.history_length ==> #[trigger] self.buffer@[p]
                == self.buffer@[p + c.history_length]
    }

    /// The invariant of the reader.
    pub open spec fn wf(&self) -> bool {
        self@.wf() && self.consistent()
    }

    /// A reader whose history buffer of `config.capacity()` samples comes
    /// from `arena`. Fails, leaving the arena as it was, with the fault of an
    /// invalid configuration, or with `ArenaExhausted` where the arena has
    /// too little left.
    pub fn init(config: Config, arena: &mut Arena<'a, T>) -> (reader: Result<Self, InitError>)
        requires
            old(arena).wf(),
        ensures
            final(arena).wf(),
            final(arena).fill() == old(arena).fill(),
            reader is Ok <==> config.valid() && config.capacity() <= old(arena)@.remaining(),
            config.fault() matches Some(e) ==> reader == Err::<Self, InitError>(e),
            config.valid() && config.capacity() > old(arena)@.remaining() ==> reader
                == Err::<Self, InitError>(InitError::ArenaExhausted),
            reader is Err ==> final(arena)@ == old(arena)@,
            reader is Ok ==> Some(final(arena)@) == old(arena)@.allocate(config.capacity()),
            reader is Ok ==> reader.unwrap().wf() && reader.unwrap()@ == (ReaderState {
                config,
                history: Seq::<T>::empty(),
            }),
    {
        match config.check() {
            Err(e) => {
                return Err(e);
            },
            Ok(_) => {},
        }
        let room = arena.remaining();
        if config.history_length > room || config.window_length > room - config.history_length {
            return Err(InitError::ArenaExhausted);
        }
        let capacity = config.history_length + config.window_length;
        match arena.allocate_buffer(capacity) {
            None => Err(InitError::ArenaExhausted),
            Some(buffer) => {
                let warmup_counter = config.history_length / config.block_length;
                proof {
                    vstd::arithmetic::div_mod::lemma_fundamental_div_mod(
                        config.history_length as int,
                        config.block_length as int,
                    );
                    vstd::arithmetic::div_mod::lemma_small_mod(0, config.hop_length as nat);
                    vstd::arithmetic::div_mod::lemma_small_mod(0, config.block_length as nat);
                    assert(warmup_counter * config.block_length == config.block_length
                        * warmup_counter) by (nonlinear_arith);
                }
                Ok(
                    Reader {
                        buffer,
                        config,
                        index: config.window_length,
                        hop_counter: 0,
                        warmup_counter,
                        history: Ghost(Seq::empty()),
                    },
                )
            },
        }
    }

    /// The configuration the reader was set up with.
    pub fn config(&self) -> (config: Config)
        ensures
            config == self@.config,
    {
        self.config
    }

    /// True once a full history has been seen.
    pub fn warmed_up(&self) -> (b: bool)
        requires
            self.wf(),
        ensures
            b == self@.warmed_up(),
    {
        proof {
            if self.history@.len() < self.config.history_length {
                assert(self.warmup_counter != 0) by (nonlinear_arith)
                    requires
                        self.warmup_counter * self.config.block_length > 0,
                ;
            }
        }
        self.warmup_counter == 0
    }

    /// Takes in one audio block. Says whether an analysis window is due:
    /// after the warm-up, once every `hop_length` samples.
    pub fn push_block(&mut self, block: &[T]) -> (due: bool)
        requires
            old(self).wf(),
            block@.len() == old(self)@.config.block_length,
        ensures
            final(self).wf(),
            final(self)@ == old(self)@.next(block@),
            due == old(self)@.due(block@),
    {
        let block_length = self.config.block_length;
        let span = self.config.history_length;
        let start = self.index;
        let mirrored = start >= span;
        let ghost before = self.buffer@;
        proof {
            let b = block_length as int;
            vstd::arithmetic::div_mod::lemma_add_mod_noop(
                span as int,
                self.config.window_length as int,
                b,
            );
            vstd::arithmetic::div_mod::lemma_small_mod(0, block_length as nat);
            lemma_aligned_gap(start as int, self.config.capacity() as int, b);
            if !mirrored {
                lemma_aligned_gap(start as int, span as int, b);
            }
            if self.config.window_length < b {
                vstd::arithmetic::div_mod::lemma_small_mod(
                    self.config.window_length as nat,
                    b as nat,
                );
            }
        }
        let mut i: usize = 0;
        while i < block_length
            invariant
                i <= block_length,
                block@.len() == block_length,
                start + block_length <= self.buffer@.len(),
                block_length <= span,
                before.len() <= usize::MAX,
                self.buffer@.len() == before.len(),
                before.len() == span + self.config.window_length,
                mirrored == (start >= span),
                self.config == old(self).config,
                self.index == old(self).index,
                self.hop_counter == old(self).hop_counter,
                self.warmup_counter == old(self).warmup_counter,
                self.history@ == old(self).history@,
                forall|p: int| start <= p < start + i ==> #[trigger] self.buffer@[p] == block@[p - start],
                forall|p: int|
                    mirrored && start - span <= p < start - span + i ==> #[trigger] self.buffer@[p]
                        == block@[p - (start - span)],
                forall|p: int|
                    0 <= p < before.len() && !(start <= p < start + i) && !(mirrored && start - span
                        <= p < start - span + i) ==> #[trigger] self.buffer@[p] == before[p],
            decreases block_length - i,
        {
            let x = block[i];
            self.buffer[start + i] = x;
            if mirrored {
                self.buffer[start + i - span] = x;
            }
            i += 1;
        }
        let ghost seen = self.history@;
        proof {
            self.history@ = seen + block@;
        }
        self.index = start + block_length;
        proof {
            let len = seen.len() as int;
            let c = self.config;
            assert forall|p: int|
                self.live_from() <= p < self.index && self.index - p <= len + block_length implies #[trigger] self.buffer@[p]
                == self.history@[len + block_length - (self.index - p)] by {
                if p < start {
                    assert(old(self).live_from() <= p);
                    assert(self.buffer@[p] == before[p]);
                }
            }
            assert forall|p: int| 0 <= p < self.index - span implies #[trigger] self.buffer@[p]
                == self.buffer@[p + span] by {
                if p < start - span {
                    assert(self.buffer@[p] == before[p]);
                    assert(self.buffer@[p + span] == before[p + span]);
                }
            }
        }
        if self.index == span + self.config.window_length {
            self.index = self.config.window_length;
            proof {
                let len = self.history@.len() as int;
                let w = self.config.window_length as int;
                assert forall|p: int| 0 <= p < w && w - p <= len implies #[trigger] self.buffer@[p]
                    == self.history@[len - (w - p)] by {
                    assert(self.buffer@[p] == self.buffer@[p + span]);
                }
            }
        }
        proof {
            let b = block_length as int;
            let h = self.config.hop_length as int;
            if h < b {
                vstd::arithmetic::div_mod::lemma_small_mod(h as nat, b as nat);
            }
            vstd::arithmetic::div_mod::lemma_mod_bound(seen.len() as int, h);
            lemma_mod_step(seen.len() as int, b, h);
            lemma_aligned_gap(old(self).hop_counter as int, h, b);
        }
        self.hop_counter = if self.hop_counter + block_length == self.config.hop_length {
            0
        } else {
            self.hop_counter + block_length
        };
        proof {
            vstd::arithmetic::div_mod::lemma_small_mod(0, block_length as nat);
        }
        let warmed = self.warmup_counter == 0;
        proof {
            if seen.len() < span {
                assert(self.warmup_counter != 0) by (nonlinear_arith)
                    requires
                        self.warmup_counter * block_length > 0,
                ;
            }
        }
        if self.warmup_counter > 0 {
            self.warmup_counter = self.warmup_counter - 1;
            proof {
                let w = old(self).warmup_counter as int;
                let b = block_length as int;
                assert((w - 1) * b == w * b - b) by (nonlinear_arith);
                if seen.len() + block_length >= span {
                    assert(w - 1 == 0) by (nonlinear_arith)
                        requires
                            (w - 1) * b <= 0,
                            w - 1 >= 0,
                            b > 0,
                    ;
                }
            }
        }
        warmed && self.hop_counter == 0
    }

    /// The latest `window_length` samples, in place, once the reader is
    /// warmed up; `None` before.
    pub fn window(&self) -> (window: Option<&[T]>)
        requires
            self.wf(),
        ensures
            window is Some <==> self@.warmed_up(),
            window is Some ==> window.unwrap()@ == self@.window(),
    {
        if !self.warmed_up() {
            return None;
        }
        let from = self.index - self.config.window_length;
        let window = vstd::slice::slice_subrange(&*self.buffer, from, self.index);
        proof {
            let len = self.history@.len() as int;
            assert forall|j: int| 0 <= j < self.config.window_length implies window@[j]
                == self@.window()[j] by {
                assert(self.buffer@[from + j] == self.history@[len - (self.index - (from + j))]);
            }
            assert(window@ =~= self@.window());
        }
        Some(window)
    }
}

/// Successive windows overlap. When `more` samples follow, no more of them
/// than a window holds, the new window is the old one without its oldest
/// `more.len()` samples, followed by the new samples.
pub proof fn lemma_windows_overlap<T>(s: ReaderState<T>, more: Seq<T>)
    requires
        s.history.len() >= s.config.window_length,
        more.len() <= s.config.window_length,
    ensures
        s.next(more).window() == s.window().skip(more.len() as int) + more,
        s.next(more).window().len() == s.config.window_length,
{
    assert(s.next(more).window() =~= s.window().skip(more.len() as int) + more);
}

/// Once the reader is warmed up, a window is due after a block exactly when
/// the number of samples seen is a multiple of the hop, and no window is due
/// before that.
pub proof fn lemma_window_every_hop<T>(s: ReaderState<T>, block: Seq<T>)
    requires
        s.wf(),
        block.len() == s.config.block_length,
    ensures
        s.due(block) <==> s.history.len() >= s.config.history_length && (s.history.len()
            + block.len()) % (s.config.hop_length as nat) == 0,
        s.due(block) ==> s.next(block).warmed_up() && s.next(block).window().len()
            == s.config.window_length,
{
}

} // verus!
