//! The code generator: a code is a string over the upper-case letters and
//! the digits, each symbol drawn from a uniform random source by rejection
//! sampling.

use rand::rngs::ThreadRng;
use rand::RngCore;
use vstd::prelude::*;
use vstd::string::StrSliceExecFns;

verus! {

/// Number of symbols in the alphabet.
pub const RANGE: u32 = 36;

/// Number of draws that may be discarded for one symbol. The draw after
/// them is no longer rejected.
pub const MAX_REJECTED: u32 = 64;

/// The alphabet: the upper-case letters, then the digits.
pub open spec fn alphabet() -> Seq<char> {
    "ABCDEFGHIJKLMNOPQRSTUVWXYZ0123456789"@
}

/// Whether `c` is a symbol of the alphabet.
pub open spec fn is_code_symbol(c: char) -> bool {
    ('A' <= c && c <= 'Z') || ('0' <= c && c <= '9')
}

/// Whether `code` has exactly `length` symbols, all of the alphabet.
pub open spec fn is_code(code: Seq<char>, length: nat) -> bool {
    &&& code.len() == length
    &&& forall|i: int| 0 <= i < code.len() ==> is_code_symbol(#[trigger] code[i])
}

/// The symbol at position `i` of the alphabet, as a byte.
pub open spec fn symbol_at(i: int) -> u8 {
    alphabet()[i] as u8
}

/// The index that a draw stands for: its six high bits, a value from 0 to
/// 63.
pub open spec fn draw_index(draw: u32) -> int {
    draw as int / 0x400_0000
}

/// The symbol that a draw selects: the one at the draw's index where the
/// index falls inside the alphabet, none where it falls outside.
pub open spec fn symbol_of_draw(draw: u32) -> Option<u8> {
    if draw_index(draw) < RANGE {
        Some(symbol_at(draw_index(draw)))
    } else {
        None
    }
}

/// The alphabet has `RANGE` entries. Each of them is an upper-case letter
/// or a digit, and each upper-case letter and each digit is one of them.
pub proof fn lemma_alphabet()
    ensures
        alphabet().len() == RANGE,
        forall|i: int| 0 <= i < RANGE ==> is_code_symbol(#[trigger] alphabet()[i]),
        forall|i: int| 0 <= i < RANGE ==> is_code_symbol(#[trigger] symbol_at(i) as char),
        forall|c: char| is_code_symbol(c) ==> alphabet().contains(c),
{
    reveal_strlit("ABCDEFGHIJKLMNOPQRSTUVWXYZ0123456789");
    assert forall|c: char| is_code_symbol(c) implies alphabet().contains(c) by {
        let i: int = if 'A' <= c && c <= 'Z' {
            c as int - 'A' as int
        } else {
            c as int - '0' as int + 26
        };
        assert(alphabet()[i] == c);
    }
}

/// The alphabet as text.
fn charset() -> (charset: &'static str)
    ensures
        charset@ == alphabet(),
        charset@.len() == RANGE,
        charset.is_ascii(),
{
    proof {
        reveal_strlit("ABCDEFGHIJKLMNOPQRSTUVWXYZ0123456789");
    }
    "ABCDEFGHIJKLMNOPQRSTUVWXYZ0123456789"
}

/// Accepts or rejects one draw: the symbol at the draw's index, or nothing
/// where the index falls outside the alphabet.
pub fn symbol_for_draw(draw: u32) -> (symbol: Option<u8>)
    ensures
        symbol == symbol_of_draw(draw),
{
    let index: u32 = draw >> 26;
    assert(draw >> 26 == draw / 0x400_0000) by (bit_vector);
    if index < RANGE {
        Some(charset().get_ascii(index as usize))
    } else {
        None
    }
}

/// Folds a draw into the alphabet: the symbol at the remainder of the
/// draw's index by `RANGE`. Every draw gives a symbol.
pub fn symbol_folded(draw: u32) -> (symbol: u8)
    ensures
        symbol == symbol_at(draw_index(draw) % (RANGE as int)),
{
    let index: u32 = (draw >> 26) % RANGE;
    assert(draw >> 26 == draw / 0x400_0000) by (bit_vector);
    charset().get_ascii(index as usize)
}

/// `rand::rngs::ThreadRng`, the handle to the calling thread's generator.
/// Nothing is known of what it holds.
#[verifier::external_type_specification]
#[verifier::external_body]
pub struct ExThreadRng(ThreadRng);

/// `rand::thread_rng`: the handle to the calling thread's generator, which
/// is seeded from the system on its first use. Nothing is claimed of it.
/// The call does not return where the system cannot seed the generator.
#[verifier::external_body]
fn thread_rng() -> (rng: ThreadRng) {
    rand::thread_rng()
}

/// `RngCore::next_u32` of `ThreadRng`: the generator's next 32 bits. Every
/// value may come back, so nothing is claimed of the draw. The call does
/// not return where the generator is due for fresh entropy and the system
/// cannot give it.
#[verifier::external_body]
fn next_u32(rng: &mut ThreadRng) -> (draw: u32) {
    rng.next_u32()
}

/// `String::push`: the string afterwards is the string before with `c`
/// appended.
pub assume_specification[ String::push ](s: &mut String, c: char)
    ensures
        final(s)@ == old(s)@.push(c),
;

/// The symbol that the draw `draw` gives after `rejected` draws were
/// discarded: the one that `draw` selects, if any, while fewer than
/// `MAX_REJECTED` were discarded; from then on `draw` folded into the
/// alphabet.
pub open spec fn symbol_of_draw_after(rejected: u32, draw: u32) -> Option<u8> {
    if rejected < MAX_REJECTED {
        symbol_of_draw(draw)
    } else {
        Some(symbol_at(draw_index(draw) % (RANGE as int)))
    }
}

/// One step of the rejection: accepts or rejects `draw` after `rejected`
/// draws were discarded. It rejects none once `MAX_REJECTED` were.
pub fn symbol_after(rejected: u32, draw: u32) -> (symbol: Option<u8>)
    ensures
        symbol == symbol_of_draw_after(rejected, draw),
        symbol matches Some(byte) ==> is_code_symbol(byte as char),
{
    proof {
        lemma_alphabet();
    }
    if rejected < MAX_REJECTED {
        symbol_for_draw(draw)
    } else {
        Some(symbol_folded(draw))
    }
}

/// The distribution of one symbol over the alphabet.
pub struct AsciiUpperCaseAndNumbers;

impl AsciiUpperCaseAndNumbers {
    /// Draws one symbol by rejection: a draw whose index falls outside the
    /// alphabet is discarded and another one is taken. A draw is rejected
    /// with probability 7/16, so `MAX_REJECTED` draws in a row are in
    /// practice never discarded; the draw after them is folded into the
    /// alphabet, which bounds the number of draws.
    pub fn sample(&self, rng: &mut ThreadRng) -> (symbol: u8)
        ensures
            is_code_symbol(symbol as char),
    {
        let mut rejected: u32 = 0;
        loop
            invariant
                rejected <= MAX_REJECTED,
            decreases MAX_REJECTED - rejected,
        {
            let draw: u32 = next_u32(rng);
            match symbol_after(rejected, draw) {
                Some(symbol) => {
                    return symbol;
                },
                None => {
                    rejected = rejected + 1;
                },
            }
        }
    }
}

/// Generates codes from the calling thread's random generator.
pub struct RandomCodeService;

impl RandomCodeService {
    /// A generator that draws from the calling thread's random source.
    pub fn new() -> (service: RandomCodeService) {
        RandomCodeService
    }

    /// A code of exactly `length` symbols, each drawn from the alphabet.
    pub fn random_string(&self, length: usize) -> (code: String)
        ensures
            is_code(code@, length as nat),
    {
        let mut rng = thread_rng();
        let distribution = AsciiUpperCaseAndNumbers;
        let mut code = String::new();
        let mut filled: usize = 0;
        while filled < length
            invariant
                filled <= length,
                is_code(code@, filled as nat),
            decreases length - filled,
        {
            let symbol: u8 = distribution.sample(&mut rng);
            code.push(symbol as char);
            filled = filled + 1;
        }
        code
    }
}

} // verus!
