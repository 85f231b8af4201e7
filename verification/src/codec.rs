use vstd::prelude::*;

verus! {

/// The eight bytes of a `u64`, least significant first.
pub open spec fn u64_le(value: u64) -> Seq<u8> {
    seq![
        (value % 0x100) as u8,
        (value / 0x100 % 0x100) as u8,
        (value / 0x1_0000 % 0x100) as u8,
        (value / 0x100_0000 % 0x100) as u8,
        (value / 0x1_0000_0000 % 0x100) as u8,
        (value / 0x100_0000_0000 % 0x100) as u8,
        (value / 0x1_0000_0000_0000 % 0x100) as u8,
        (value / 0x100_0000_0000_0000 % 0x100) as u8,
    ]
}

/// The number that eight bytes spell, least significant first.
pub open spec fn u64_from_le(bytes: Seq<u8>) -> int
    recommends
        bytes.len() == 8,
{
    bytes[0] + 0x100 * bytes[1] + 0x1_0000 * bytes[2] + 0x100_0000 * bytes[3] + 0x1_0000_0000
        * bytes[4] + 0x100_0000_0000 * bytes[5] + 0x1_0000_0000_0000 * bytes[6]
        + 0x100_0000_0000_0000 * bytes[7]
}

/// Reading back the bytes of a number gives the number.
pub proof fn lemma_u64_le_read_back(value: u64)
    ensures
        u64_le(value).len() == 8,
        u64_from_le(u64_le(value)) == value,
{
    let q1 = value / 0x100;
    let q2 = q1 / 0x100;
    let q3 = q2 / 0x100;
    let q4 = q3 / 0x100;
    let q5 = q4 / 0x100;
    let q6 = q5 / 0x100;
    let q7 = q6 / 0x100;
    assert(value / 0x1_0000 == q2);
    assert(value / 0x100_0000 == q3);
    assert(value / 0x1_0000_0000 == q4);
    assert(value / 0x100_0000_0000 == q5);
    assert(value / 0x1_0000_0000_0000 == q6);
    assert(value / 0x100_0000_0000_0000 == q7);
    assert(q7 < 0x100);
    assert(q6 == q6 % 0x100 + 0x100 * q7);
    assert(q5 == q5 % 0x100 + 0x100 * q6);
    assert(q4 == q4 % 0x100 + 0x100 * q5);
    assert(q3 == q3 % 0x100 + 0x100 * q4);
    assert(q2 == q2 % 0x100 + 0x100 * q3);
    assert(q1 == q1 % 0x100 + 0x100 * q2);
    assert(value == value % 0x100 + 0x100 * q1);
}

/// Eight bytes spell a `u64`, whose bytes they are.
pub proof fn lemma_u64_from_le_write_back(bytes: Seq<u8>)
    requires
        bytes.len() == 8,
    ensures
        0 <= u64_from_le(bytes) <= u64::MAX,
        u64_le(u64_from_le(bytes) as u64) == bytes,
{
    let t7: int = bytes[7] as int;
    let t6: int = bytes[6] + 0x100 * t7;
    let t5: int = bytes[5] + 0x100 * t6;
    let t4: int = bytes[4] + 0x100 * t5;
    let t3: int = bytes[3] + 0x100 * t4;
    let t2: int = bytes[2] + 0x100 * t3;
    let t1: int = bytes[1] + 0x100 * t2;
    let t0: int = bytes[0] + 0x100 * t1;
    assert(t0 == u64_from_le(bytes));
    assert(0 <= t0 <= u64::MAX);
    let value = t0 as u64;
    assert(value / 0x100 == t1 && value % 0x100 == bytes[0]);
    assert(t1 / 0x100 == t2 && t1 % 0x100 == bytes[1]);
    assert(t2 / 0x100 == t3 && t2 % 0x100 == bytes[2]);
    assert(t3 / 0x100 == t4 && t3 % 0x100 == bytes[3]);
    assert(t4 / 0x100 == t5 && t4 % 0x100 == bytes[4]);
    assert(t5 / 0x100 == t6 && t5 % 0x100 == bytes[5]);
    assert(t6 / 0x100 == t7 && t6 % 0x100 == bytes[6]);
    assert(value / 0x1_0000 == t2);
    assert(value / 0x100_0000 == t3);
    assert(value / 0x1_0000_0000 == t4);
    assert(value / 0x100_0000_0000 == t5);
    assert(value / 0x1_0000_0000_0000 == t6);
    assert(value / 0x100_0000_0000_0000 == t7);
    assert(u64_le(value) =~= bytes);
}

/// Appends the eight bytes of `value` to `out`, least significant first.
pub fn push_u64_le(out: &mut Vec<u8>, value: u64)
    ensures
        final(out)@ == old(out)@ + u64_le(value),
{
    let ghost before = out@;
    let mut rest: u64 = value;
    let mut i: usize = 0;
    while i < 8
        invariant
            i <= 8,
            out@.len() == before.len() + i,
            out@.subrange(0, before.len() as int) == before,
            forall|k: int| 0 <= k < i ==> out@[before.len() + k] == u64_le(value)[k],
            i == 0 ==> rest == value,
            i == 1 ==> rest == value / 0x100,
            i == 2 ==> rest == value / 0x1_0000,
            i == 3 ==> rest == value / 0x100_0000,
            i == 4 ==> rest == value / 0x1_0000_0000,
            i == 5 ==> rest == value / 0x100_0000_0000,
            i == 6 ==> rest == value / 0x1_0000_0000_0000,
            i == 7 ==> rest == value / 0x100_0000_0000_0000,
        decreases 8 - i,
    {
        let ghost held = out@;
        out.push((rest % 0x100) as u8);
        assert(out@.subrange(0, before.len() as int) =~= held.subrange(0, before.len() as int));
        rest = rest / 0x100;
        i = i + 1;
    }
    assert(out@ =~= before + u64_le(value));
}

/// Reads the `u64` that the eight bytes of `data` from `at` on spell.
pub fn read_u64_le(data: &[u8], at: usize) -> (value: u64)
    requires
        at + 8 <= data.len(),
    ensures
        value == u64_from_le(data@.subrange(at as int, at + 8)),
{
    let ghost bytes = data@.subrange(at as int, at + 8);
    let mut value: u64 = 0;
    let mut i: usize = 8;
    while i > 0
        invariant
            i <= 8,
            at + 8 <= data.len(),
            bytes == data@.subrange(at as int, at + 8),
            i == 8 ==> value == 0,
            i == 7 ==> value == bytes[7],
            i == 6 ==> value == bytes[6] + 0x100 * bytes[7],
            i == 5 ==> value == bytes[5] + 0x100 * bytes[6] + 0x1_0000 * bytes[7],
            i == 4 ==> value == bytes[4] + 0x100 * bytes[5] + 0x1_0000 * bytes[6] + 0x100_0000
                * bytes[7],
            i == 3 ==> value == bytes[3] + 0x100 * bytes[4] + 0x1_0000 * bytes[5] + 0x100_0000
                * bytes[6] + 0x1_0000_0000 * bytes[7],
            i == 2 ==> value == bytes[2] + 0x100 * bytes[3] + 0x1_0000 * bytes[4] + 0x100_0000
                * bytes[5] + 0x1_0000_0000 * bytes[6] + 0x100_0000_0000 * bytes[7],
            i == 1 ==> value == bytes[1] + 0x100 * bytes[2] + 0x1_0000 * bytes[3] + 0x100_0000
                * bytes[4] + 0x1_0000_0000 * bytes[5] + 0x100_0000_0000 * bytes[6]
                + 0x1_0000_0000_0000 * bytes[7],
            i == 0 ==> value == u64_from_le(bytes),
        decreases i,
    {
        i = i - 1;
        let byte: u8 = data[at + i];
        assert(byte == bytes[i as int]);
        value = value * 0x100 + byte as u64;
    }
    value
}

} // verus!
