//! Exclusive use of the process's standard streams.
//!
//! At most one live handle may use standard input, and at most one standard
//! output. A [`StdioLocks`] table records which of the two are in use. A
//! handle for a standard stream is built only from a [`StdioToken`], which
//! the table gives out while the stream is free and takes back when the
//! handle is torn down.

use vstd::multiset::Multiset;
use vstd::prelude::*;

verus! {

/// One of the two standard streams that a handle can claim.
#[derive(Clone, Copy, Debug, PartialEq, Eq, Structural)]
pub enum StdStream {
    /// Standard input.
    Stdin,
    /// Standard output.
    Stdout,
}

/// The error of claiming a standard stream that a live handle already uses.
#[derive(Clone, Copy, Debug, PartialEq, Eq, Structural)]
pub struct AlreadyHeld {
    /// The stream that was asked for.
    pub stream: StdStream,
}

/// Proof of exclusive use of one standard stream.
///
/// Only [`StdioLocks::acquire`] makes one, and it cannot be copied.
#[derive(Debug)]
pub struct StdioToken {
    stream: StdStream,
}

impl StdioToken {
    /// The stream that this token stands for.
    pub closed spec fn spec_stream(&self) -> StdStream {
        self.stream
    }

    /// The stream that this token stands for.
    #[verifier::when_used_as_spec(spec_stream)]
    pub fn stream(&self) -> (stream: StdStream)
        ensures
            stream == self.spec_stream(),
    {
        self.stream
    }
}

/// Which standard streams are in use.
///
/// Its view is the set of streams for which a live token exists.
#[derive(Debug)]
pub struct StdioLocks {
    stdin_held: bool,
    stdout_held: bool,
}

impl View for StdioLocks {
    type V = Set<StdStream>;

    closed spec fn view(&self) -> Set<StdStream> {
        Set::new(
            |stream: StdStream|
                match stream {
                    StdStream::Stdin => self.stdin_held,
                    StdStream::Stdout => self.stdout_held,
                },
        )
    }
}

impl StdioLocks {
    /// Whether `stream` can be claimed where the streams in `held` are in
    /// use.
    pub open spec fn claimable(held: Set<StdStream>, stream: StdStream) -> bool {
        !held.contains(stream)
    }

    /// Whether a live token for `stream` exists.
    pub open spec fn spec_is_held(&self, stream: StdStream) -> bool {
        self@.contains(stream)
    }

    /// A table in which both streams are free.
    pub fn new() -> (locks: Self)
        ensures
            locks@ == Set::<StdStream>::empty(),
    {
        let locks = StdioLocks { stdin_held: false, stdout_held: false };
        assert(locks@ =~= Set::<StdStream>::empty());
        locks
    }

    /// Whether a live token for `stream` exists.
    #[verifier::when_used_as_spec(spec_is_held)]
    pub fn is_held(&self, stream: StdStream) -> (held: bool)
        ensures
            held == self@.contains(stream),
    {
        match stream {
            StdStream::Stdin => self.stdin_held,
            StdStream::Stdout => self.stdout_held,
        }
    }

    /// Claims `stream` without waiting.
    ///
    /// Succeeds exactly when the stream is free, and then marks it as held.
    /// Fails with [`AlreadyHeld`] otherwise, and then changes nothing.
    pub fn acquire(&mut self, stream: StdStream) -> (claim: Result<StdioToken, AlreadyHeld>)
        ensures
            claim is Ok <==> Self::claimable(old(self)@, stream),
            claim matches Ok(token) ==> token.stream() == stream && final(self)@ == old(
                self,
            )@.insert(stream),
            claim matches Err(conflict) ==> conflict.stream == stream && final(self)@ == old(self)@,
    {
        match stream {
            StdStream::Stdin => {
                if self.stdin_held {
                    return Err(AlreadyHeld { stream });
                }
                self.stdin_held = true;
            },
            StdStream::Stdout => {
                if self.stdout_held {
                    return Err(AlreadyHeld { stream });
                }
                self.stdout_held = true;
            },
        }
        assert(self@ =~= old(self)@.insert(stream));
        Ok(StdioToken { stream })
    }

    /// Gives the token's stream back, so that it can be claimed again.
    pub fn release(&mut self, token: StdioToken)
        ensures
            final(self)@ == old(self)@.remove(token.stream()),
    {
        match token.stream {
            StdStream::Stdin => {
                self.stdin_held = false;
            },
            StdStream::Stdout => {
                self.stdout_held = false;
            },
        }
        assert(self@ =~= old(self)@.remove(token.stream()));
    }
}

/// While the token of a stream lives, a second claim of that stream fails,
/// whatever else was claimed or released in between; a claim of the other
/// stream is not affected by it.
pub proof fn lemma_held_stream_is_exclusive(
    held: Set<StdStream>,
    stream: StdStream,
    other: StdStream,
)
    requires
        other != stream,
    ensures
        !StdioLocks::claimable(held.insert(stream), stream),
        !StdioLocks::claimable(held.insert(stream).insert(other), stream),
        !StdioLocks::claimable(held.insert(stream).remove(other), stream),
        StdioLocks::claimable(held.insert(stream), other) == StdioLocks::claimable(held, other),
{
}

/// Once the token of a stream has been given back, a new claim of that
/// stream succeeds.
pub proof fn lemma_released_stream_is_claimable(held: Set<StdStream>, stream: StdStream)
    ensures
        StdioLocks::claimable(held.remove(stream), stream),
        StdioLocks::claimable(held.insert(stream).remove(stream), stream),
{
}

/// Claiming a free stream and giving it back leaves the set of held streams
/// as it was.
pub proof fn lemma_claim_and_release_restores(held: Set<StdStream>, stream: StdStream)
    requires
        StdioLocks::claimable(held, stream),
    ensures
        held.insert(stream).remove(stream) == held,
{
    assert(held.insert(stream).remove(stream) =~= held);
}

/// The standard streams as the whole process sees them: the streams that
/// the table marks as held, and the tokens that live handles hold.
pub struct StdioWorld {
    /// The view of the table.
    pub held: Set<StdStream>,
    /// The streams of all live tokens, each as often as a token for it
    /// lives.
    pub tokens: Multiset<StdStream>,
}

impl StdioWorld {
    /// The process before any stream was claimed.
    pub open spec fn initial() -> Self {
        StdioWorld { held: Set::empty(), tokens: Multiset::empty() }
    }

    /// Mutual exclusion: a stream has one live token if the table marks it
    /// as held, and none otherwise.
    pub open spec fn exclusive(self) -> bool {
        forall|stream: StdStream| #[trigger]
            self.tokens.count(stream) == (if self.held.contains(stream) {
                1nat
            } else {
                0nat
            })
    }

    /// The process after a call of [`StdioLocks::acquire`] for `stream`: a
    /// token comes to life exactly when the stream was free.
    pub open spec fn claim(self, stream: StdStream) -> Self {
        if StdioLocks::claimable(self.held, stream) {
            StdioWorld { held: self.held.insert(stream), tokens: self.tokens.insert(stream) }
        } else {
            self
        }
    }

    /// The process after a live token for `stream` went through
    /// [`StdioLocks::release`].
    pub open spec fn give_back(self, stream: StdStream) -> Self {
        StdioWorld { held: self.held.remove(stream), tokens: self.tokens.remove(stream) }
    }
}

/// Mutual exclusion holds at the start and is kept by every claim and by
/// every release of a live token. So at every moment at most one live
/// handle holds standard input, and at most one standard output.
pub proof fn lemma_exclusion_is_invariant(world: StdioWorld, stream: StdStream)
    requires
        world.exclusive(),
    ensures
        StdioWorld::initial().exclusive(),
        world.claim(stream).exclusive(),
        world.tokens.count(stream) >= 1 ==> world.give_back(stream).exclusive(),
        forall|any: StdStream| world.tokens.count(any) <= 1,
{
    broadcast use vstd::multiset::group_multiset_axioms;

    assert forall|any: StdStream| world.tokens.count(any) <= 1 by {
        assert(world.tokens.count(any) == (if world.held.contains(any) {
            1nat
        } else {
            0nat
        }));
    }
    let claimed = world.claim(stream);
    assert forall|any: StdStream| #[trigger]
        claimed.tokens.count(any) == (if claimed.held.contains(any) {
            1nat
        } else {
            0nat
        }) by {
        assert(world.tokens.count(any) == (if world.held.contains(any) {
            1nat
        } else {
            0nat
        }));
    }
    if world.tokens.count(stream) >= 1 {
        let given = world.give_back(stream);
        assert forall|any: StdStream| #[trigger]
            given.tokens.count(any) == (if given.held.contains(any) {
                1nat
            } else {
                0nat
            }) by {
            assert(world.tokens.count(any) == (if world.held.contains(any) {
                1nat
            } else {
                0nat
            }));
            assert(world.tokens.count(stream) == 1);
        }
    }
}

} // verus!
