//! Implementation of the Assembler was made possible by an online x86 / x64 assembler and
//! disassembler.
//!
//! The x64 Application Binary Interface (ABI) uses a four-register fast-call calling convention by
//! default. Space is allocated on the call stack as a shadow store for callees to save those
//! registers. Integer arguments are passed in registers RCX, RDX, R8, and R9.

use vstd::prelude::*;

verus! {

/// The number of bytes of a machine word: `size_of::<usize>()`, 8 on the x64 target.
pub open spec fn word_len() -> nat {
    (usize::BITS / 8) as nat
}

/// The number of bytes of a machine word, as computed at run time.
fn word_len_exec() -> (r: usize)
    ensures
        r == word_len(),
{
    (usize::BITS / 8) as usize
}

/// The little-endian encoding of `value` on `n` bytes: the least significant byte first.
pub open spec fn le_bytes(value: nat, n: nat) -> Seq<u8>
    decreases n,
{
    if n == 0 {
        Seq::empty()
    } else {
        seq![(value % 256) as u8] + le_bytes(value / 256, (n - 1) as nat)
    }
}

/// The value that a little-endian byte sequence encodes.
pub open spec fn le_value(bytes: Seq<u8>) -> nat
    decreases bytes.len(),
{
    if bytes.len() == 0 {
        0
    } else {
        (bytes[0] as nat + 256 * le_value(bytes.drop_first())) as nat
    }
}

/// `pow256(n)` is 256 to the power `n`.
pub open spec fn pow256(n: nat) -> nat
    decreases n,
{
    if n == 0 {
        1
    } else {
        256 * pow256((n - 1) as nat)
    }
}

/// The encoding of a machine word: what `usize::to_le_bytes` gives.
pub open spec fn word_bytes(value: usize) -> Seq<u8> {
    le_bytes(value as nat, word_len())
}

/// Encoding on `n` bytes yields `n` bytes.
pub proof fn lemma_le_bytes_len(value: nat, n: nat)
    ensures
        le_bytes(value, n).len() == n,
    decreases n,
{
    if n > 0 {
        lemma_le_bytes_len(value / 256, (n - 1) as nat);
    }
}

/// Decoding the little-endian encoding of a value that fits on `n` bytes gives the value back.
pub proof fn lemma_le_round_trip(value: nat, n: nat)
    requires
        value < pow256(n),
    ensures
        le_value(le_bytes(value, n)) == value,
    decreases n,
{
    if n > 0 {
        let rest = le_bytes(value / 256, (n - 1) as nat);
        assert(value / 256 < pow256((n - 1) as nat)) by (nonlinear_arith)
            requires
                value < 256 * pow256((n - 1) as nat),
        ;
        lemma_le_round_trip(value / 256, (n - 1) as nat);
        assert(le_bytes(value, n).drop_first() =~= rest);
        assert(value == value % 256 + 256 * (value / 256)) by (nonlinear_arith);
    }
}

/// The largest stack adjustment that fits a sign-extended 8-bit immediate.
pub open spec fn imm8_max() -> nat {
    0x7F
}

/// The largest stack adjustment that fits a sign-extended 32-bit immediate.
pub open spec fn imm32_max() -> nat {
    0x7FFF_FFFF
}

/// The machine code that applies an arithmetic operation (`sub` for `/5`, `add` for `/0`,
/// given by its ModRM byte `modrm`) with the immediate `value` to rsp: `48 83 modrm ib` where
/// the value fits a sign-extended byte, else `48 81 modrm id` with a little-endian double word.
pub open spec fn rsp_imm_code(modrm: u8, value: usize) -> Seq<u8> {
    if value <= imm8_max() {
        seq![0x48u8, 0x83u8, modrm, value as u8]
    } else {
        seq![0x48u8, 0x81u8, modrm] + le_bytes(value as nat, 4)
    }
}

/// The machine code of `sub rsp, value`.
pub open spec fn sub_rsp_code(value: usize) -> Seq<u8> {
    rsp_imm_code(0xECu8, value)
}

/// The machine code of `add rsp, value`.
pub open spec fn add_rsp_code(value: usize) -> Seq<u8> {
    rsp_imm_code(0xC4u8, value)
}

/// The machine code of `mov rax, imm64`.
pub open spec fn mov_rax_code(value: usize) -> Seq<u8> {
    seq![0x48u8, 0xB8u8] + word_bytes(value)
}

/// The machine code of `mov rcx, imm64`.
pub open spec fn mov_rcx_code(value: usize) -> Seq<u8> {
    seq![0x48u8, 0xB9u8] + word_bytes(value)
}

/// The machine code of `mov rdx, imm64`.
pub open spec fn mov_rdx_code(value: usize) -> Seq<u8> {
    seq![0x48u8, 0xBAu8] + word_bytes(value)
}

/// The machine code of `mov r8, imm64`.
pub open spec fn mov_r8_code(value: usize) -> Seq<u8> {
    seq![0x49u8, 0xB8u8] + word_bytes(value)
}

/// The machine code of `mov r9, imm64`.
pub open spec fn mov_r9_code(value: usize) -> Seq<u8> {
    seq![0x49u8, 0xB9u8] + word_bytes(value)
}

/// The machine code of `call rax`.
pub open spec fn call_rax_code() -> Seq<u8> {
    seq![0xFFu8, 0xD0u8]
}

/// The machine code of `mov [address], rax`.
pub open spec fn mov_rax_to_code(address: usize) -> Seq<u8> {
    seq![0x48u8, 0xA3u8] + word_bytes(address)
}

/// The machine code of `ret`.
pub open spec fn ret_code() -> Seq<u8> {
    seq![0xC3u8]
}

/// An append-only buffer of x64 machine code.
pub struct Assembler {
    data: Vec<u8>,
}

impl View for Assembler {
    type V = Seq<u8>;

    /// The bytes generated so far, in order.
    closed spec fn view(&self) -> Seq<u8> {
        self.data@
    }
}

/// Appends the little-endian encoding of `value` on `n` bytes.
fn push_le_bytes(data: &mut Vec<u8>, value: usize, n: usize)
    ensures
        final(data)@ == old(data)@ + le_bytes(value as nat, n as nat),
{
    let ghost start = old(data)@;
    let mut rest: usize = value;
    let mut i: usize = 0;
    while i < n
        invariant
            i <= n,
            data@ + le_bytes(rest as nat, (n - i) as nat) == start + le_bytes(value as nat, n as nat),
        decreases n - i,
    {
        let byte: u8 = (rest % 256) as u8;
        proof {
            let k = (n - i) as nat;
            assert(le_bytes(rest as nat, k) == seq![byte] + le_bytes((rest / 256) as nat, (k - 1) as nat));
            assert(data@.push(byte) + le_bytes((rest / 256) as nat, (k - 1) as nat) =~= data@ + le_bytes(rest as nat, k));
        }
        data.push(byte);
        rest = rest / 256;
        i = i + 1;
    }
    assert(le_bytes(rest as nat, 0) =~= Seq::<u8>::empty());
    assert(data@ =~= start + le_bytes(value as nat, n as nat));
}

/// Appends the little-endian encoding of `value` as a machine word.
pub(crate) fn push_word(data: &mut Vec<u8>, value: usize)
    ensures
        final(data)@ == old(data)@ + word_bytes(value),
{
    let n_bytes = word_len_exec();
    push_le_bytes(data, value, n_bytes);
}

/// Appends the machine code of an operation on rsp with the immediate `value`.
fn push_rsp_imm(data: &mut Vec<u8>, modrm: u8, value: usize)
    requires
        value <= imm32_max(),
    ensures
        final(data)@ == old(data)@ + rsp_imm_code(modrm, value),
{
    if value <= 0x7F {
        push_bytes(data, &[0x48, 0x83, modrm, value as u8]);
    } else {
        push_bytes(data, &[0x48, 0x81, modrm]);
        push_le_bytes(data, value, 4);
    }
    assert(data@ =~= old(data)@ + rsp_imm_code(modrm, value));
}

/// Appends the given bytes, in order.
fn push_bytes(data: &mut Vec<u8>, bytes: &[u8])
    ensures
        final(data)@ == old(data)@ + bytes@,
{
    let ghost start = old(data)@;
    let mut i: usize = 0;
    while i < bytes.len()
        invariant
            i <= bytes.len(),
            data@ == start + bytes@.take(i as int),
        decreases bytes.len() - i,
    {
        data.push(bytes[i]);
        i = i + 1;
        assert(data@ =~= start + bytes@.take(i as int));
    }
    assert(bytes@.take(i as int) =~= bytes@);
}

impl Assembler {
    /// Returns a new `Assembler` with no machine code generated.
    pub fn new() -> (r: Assembler)
        ensures
            r@ == Seq::<u8>::empty(),
    {
        Assembler { data: Vec::new() }
    }

    /// Substracts a value from the stack pointer register.
    ///
    /// The asssembly code emitted in binary is: `sub rsp, value`, with an 8-bit immediate where
    /// the value is at most `0x7F` and a 32-bit one otherwise; the immediate is sign-extended,
    /// so the value must stay below `2^31`.
    pub fn sub_rsp(&mut self, value: usize)
        requires
            value <= imm32_max(),
        ensures
            final(self)@ == old(self)@ + sub_rsp_code(value),
    {
        push_rsp_imm(&mut self.data, 0xEC, value);
    }

    /// Adds a value to the stack pointer register.
    ///
    /// The asssembly code emitted in binary is: `add rsp, value`, with an 8-bit immediate where
    /// the value is at most `0x7F` and a 32-bit one otherwise; the immediate is sign-extended,
    /// so the value must stay below `2^31`.
    pub fn add_rsp(&mut self, value: usize)
        requires
            value <= imm32_max(),
        ensures
            final(self)@ == old(self)@ + add_rsp_code(value),
    {
        push_rsp_imm(&mut self.data, 0xC4, value);
    }

    /// Moves a value to the rax register.
    ///
    /// The asssembly code emitted in binary is: `mov rax, value`.
    pub fn mov_rax(&mut self, value: usize)
        ensures
            final(self)@ == old(self)@ + mov_rax_code(value),
    {
        push_bytes(&mut self.data, &[0x48, 0xB8]);
        push_word(&mut self.data, value);
        assert(self.data@ =~= old(self)@ + mov_rax_code(value));
    }

    /// Moves a value to the rcx register.
    ///
    /// The asssembly code emitted in binary is: `mov rcx, value`.
    pub fn mov_rcx(&mut self, value: usize)
        ensures
            final(self)@ == old(self)@ + mov_rcx_code(value),
    {
        push_bytes(&mut self.data, &[0x48, 0xB9]);
        push_word(&mut self.data, value);
        assert(self.data@ =~= old(self)@ + mov_rcx_code(value));
    }

    /// Moves a value to the rdx register.
    ///
    /// The asssembly code emitted in binary is: `mov rdx, value`.
    pub fn mov_rdx(&mut self, value: usize)
        ensures
            final(self)@ == old(self)@ + mov_rdx_code(value),
    {
        push_bytes(&mut self.data, &[0x48, 0xBA]);
        push_word(&mut self.data, value);
        assert(self.data@ =~= old(self)@ + mov_rdx_code(value));
    }

    /// Moves a value to the r8 register.
    ///
    /// The asssembly code emitted in binary is: `mov r8, value`.
    pub fn mov_r8(&mut self, value: usize)
        ensures
            final(self)@ == old(self)@ + mov_r8_code(value),
    {
        push_bytes(&mut self.data, &[0x49, 0xB8]);
        push_word(&mut self.data, value);
        assert(self.data@ =~= old(self)@ + mov_r8_code(value));
    }

    /// Moves a value to the r9 register.
    ///
    /// The asssembly code emitted in binary is: `mov r9, value`.
    pub fn mov_r9(&mut self, value: usize)
        ensures
            final(self)@ == old(self)@ + mov_r9_code(value),
    {
        push_bytes(&mut self.data, &[0x49, 0xB9]);
        push_word(&mut self.data, value);
        assert(self.data@ =~= old(self)@ + mov_r9_code(value));
    }

    /// Near calls a function with its address specified in rax register.
    ///
    /// The assembly code emitted in binary is: `call rax`.
    pub fn call_rax(&mut self)
        ensures
            final(self)@ == old(self)@ + call_rax_code(),
    {
        push_bytes(&mut self.data, &[0xFF, 0xD0]);
        assert(self.data@ =~= old(self)@ + call_rax_code());
    }

    /// Moves the value of the rax register into the address specified by the caller.
    ///
    /// The assemly code emitted in binary is: `mov [address], rax`.
    pub fn mov_rax_to(&mut self, address: usize)
        ensures
            final(self)@ == old(self)@ + mov_rax_to_code(address),
    {
        push_bytes(&mut self.data, &[0x48, 0xA3]);
        push_word(&mut self.data, address);
        assert(self.data@ =~= old(self)@ + mov_rax_to_code(address));
    }

    /// Near returns to calling procedure.
    ///
    /// The assembly code emitted in binary is: `ret`.
    pub fn ret(&mut self)
        ensures
            final(self)@ == old(self)@ + ret_code(),
    {
        push_bytes(&mut self.data, &[0xC3]);
        assert(self.data@ =~= old(self)@ + ret_code());
    }

    /// Retrieves the generated assembly machine code.
    pub fn data(&self) -> (r: &[u8])
        ensures
            r@ == self@,
    {
        self.data.as_slice()
    }
}

} // verus!
