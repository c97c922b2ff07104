//! Where session ids come from.

use rand_core::RngCore;
use rand_core::SeedableRng;
use vstd::prelude::*;

use crate::session_id::law_numbers_on_the_wire;
use crate::session_id::session_id;
use crate::session_id::session_id_of;

verus! {

/// The generator of random numbers.
#[verifier::external_type_specification]
#[verifier::external_body]
pub struct ExPcg64(rand_pcg::Pcg64);

/// The error of the system's source of randomness.
#[verifier::external_type_specification]
#[verifier::external_body]
pub struct ExGetrandomError(getrandom::Error);

/// The numbers that a generator holds in store, by position: the one that it
/// gives next is at position 0.
pub uninterp spec fn pcg64_number(generator: rand_pcg::Pcg64, position: nat) -> u64;

/// The numbers that a generator made from a seed holds in store, by position.
pub uninterp spec fn pcg64_seeded_number(seed: Seq<u8>, position: nat) -> u64;

/// Calls `rand_core::SeedableRng::from_seed` of `rand_pcg::Pcg64`. The seed settles
/// the whole store of numbers.
#[verifier::external_body]
fn pcg64_from_seed(seed: [u8; 32]) -> (generator: rand_pcg::Pcg64)
    ensures
        forall|position: nat| #[trigger]
            pcg64_number(generator, position) == pcg64_seeded_number(seed@, position),
{
    rand_pcg::Pcg64::from_seed(seed)
}

/// Calls `rand_core::RngCore::next_u64` of `rand_pcg::Pcg64`. The generator gives
/// away the first number of its store; the others move up by one.
#[verifier::external_body]
fn pcg64_next_u64(generator: &mut rand_pcg::Pcg64) -> (number: u64)
    ensures
        number == pcg64_number(*old(generator), 0),
        forall|position: nat| #[trigger]
            pcg64_number(*final(generator), position) == pcg64_number(
                *old(generator),
                position + 1,
            ),
{
    generator.next_u64()
}

/// Calls `getrandom::getrandom` for a seed. What the bytes are and whether there
/// are any is up to the system: nothing is said of either.
#[verifier::external_body]
fn system_seed() -> (seed: Result<[u8; 32], getrandom::Error>) {
    let mut seed = [0; 32];
    match getrandom::getrandom(&mut seed) {
        Ok(()) => Ok(seed),
        Err(error) => Err(error),
    }
}

/// Whether asking the system for a seed can come to this.
pub closed spec fn system_may_give(seed: Result<[u8; 32], getrandom::Error>) -> bool {
    call_ensures(crate::id_source::system_seed, (), seed)
}

/// The system may give nothing but what asking it for a seed comes to.
proof fn law_system_gives_what_it_is_asked_for(seed: Result<[u8; 32], getrandom::Error>)
    requires
        system_may_give(seed),
    ensures
        call_ensures(crate::id_source::system_seed, (), seed),
{
}

/// The system has no randomness to give.
#[derive(Debug)]
pub struct SeedError {
    pub cause: getrandom::Error,
}

/// A source of session ids.
pub struct IdSource {
    generator: rand_pcg::Pcg64,
}

impl IdSource {
    /// The random number behind the session id at a position: the id that comes
    /// next is at position 0.
    pub closed spec fn number(self, position: nat) -> u64 {
        pcg64_number(self.generator, position)
    }

    /// The session id at a position.
    pub open spec fn id(self, position: nat) -> u64 {
        session_id_of(self.number(position))
    }

    /// Whether this is what a source made from `seed` becomes after `drawn` ids.
    pub open spec fn continues(self, seed: Seq<u8>, drawn: nat) -> bool {
        forall|position: nat| #[trigger]
            self.number(position) == pcg64_seeded_number(seed, drawn + position)
    }

    /// Whether this is a source that some seed gives and no id was drawn from.
    pub open spec fn is_fresh(self) -> bool {
        exists|seed: Seq<u8>| seed.len() == 32 && #[trigger] self.continues(seed, 0)
    }

    /// A source whose ids are settled by a seed.
    pub fn from_seed(seed: [u8; 32]) -> (source: Self)
        ensures
            source.continues(seed@, 0),
            forall|position: nat| #[trigger]
                source.number(position) == pcg64_seeded_number(seed@, position),
    {
        IdSource { generator: pcg64_from_seed(seed) }
    }

    /// What comes of asking the system for a seed: a source with that seed, or
    /// the system's own error.
    pub fn from_system_seed(seed: Result<[u8; 32], getrandom::Error>) -> (source: Result<
        Self,
        SeedError,
    >)
        ensures
            match seed {
                Ok(bytes) => source matches Ok(ids) && ids.continues(bytes@, 0),
                Err(cause) => source matches Err(error) && error.cause == cause,
            },
    {
        match seed {
            Ok(bytes) => Ok(IdSource::from_seed(bytes)),
            Err(cause) => Err(SeedError { cause }),
        }
    }

    /// A source with the seed that the system gives when asked, or the system's own
    /// error if it gives none.
    pub fn from_system() -> (source: Result<Self, SeedError>)
        ensures
            source matches Ok(ids) ==> ids.is_fresh(),
            exists|seed: Result<[u8; 32], getrandom::Error>| #[trigger]
                system_may_give(seed) && match seed {
                    Ok(bytes) => source matches Ok(ids) && ids.continues(bytes@, 0),
                    Err(cause) => source matches Err(error) && error.cause == cause,
                },
    {
        let seed = system_seed();
        assert(system_may_give(seed));
        let source = IdSource::from_system_seed(seed);
        assert(source matches Ok(ids) ==> ids.continues(seed->Ok_0@, 0));
        source
    }

    /// Draws the next session id.
    pub fn next_id(&mut self) -> (id: u64)
        ensures
            id == old(self).id(0),
            id % 2 == 0,
            id / 2 == old(self).number(0) % 0x8000_0000_0000_0000,
            forall|position: nat| #[trigger]
                final(self).number(position) == old(self).number(position + 1),
            forall|seed: Seq<u8>, drawn: nat| #[trigger]
                old(self).continues(seed, drawn) ==> final(self).continues(seed, drawn + 1) && id
                    == session_id_of(pcg64_seeded_number(seed, drawn)),
    {
        let raw: u64 = pcg64_next_u64(&mut self.generator);
        assert forall|seed: Seq<u8>, drawn: nat| #[trigger]
            old(self).continues(seed, drawn) implies self.continues(seed, drawn + 1) && session_id_of(
            raw,
        ) == session_id_of(pcg64_seeded_number(seed, drawn)) by {
            assert(old(self).number(0) == pcg64_seeded_number(seed, drawn));
            assert forall|position: nat| #[trigger]
                self.number(position) == pcg64_seeded_number(seed, drawn + 1 + position) by {
                assert(old(self).number(position + 1) == pcg64_seeded_number(
                    seed,
                    drawn + (position + 1),
                ));
            }
        }
        session_id(raw)
    }
}

/// Sources that come from the same seed and have given as many ids go on with
/// the same ids.
pub proof fn law_seed_settles_ids(
    one: IdSource,
    other: IdSource,
    seed: Seq<u8>,
    drawn: nat,
    position: nat,
)
    requires
        one.continues(seed, drawn),
        other.continues(seed, drawn),
    ensures
        one.id(position) == other.id(position),
{
    assert(one.number(position) == other.number(position));
}

/// The ids of a source made from a seed are the numbers that the generator gives
/// for that seed, one after the other and none left out: each id is even and
/// holds, above its lowest bit, the low 63 bits of its number.
pub proof fn law_ids_follow_the_numbers(
    source: IdSource,
    seed: Seq<u8>,
    drawn: nat,
    position: nat,
)
    requires
        source.continues(seed, drawn),
    ensures
        source.number(position) == pcg64_seeded_number(seed, drawn + position),
        source.id(position) % 2 == 0,
        source.id(position) / 2 == pcg64_seeded_number(seed, drawn + position)
            % 0x8000_0000_0000_0000,
{
    law_numbers_on_the_wire(source.number(position), 0, 0, crate::session_id::Direction::Up);
}

} // verus!
