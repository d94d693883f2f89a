//! Sound as the bytes of a WAV file: one channel of 16 bit samples.

use vstd::prelude::*;

verus! {

/// How many bytes come before the samples.
pub const HEADER_LEN: usize = 44;

/// The two bytes of a number, the low one first.
pub open spec fn le2(n: int) -> Seq<u8> {
    seq![(n % 256) as u8, (n / 256 % 256) as u8]
}

/// The four bytes of a number, the low ones first.
pub open spec fn le4(n: int) -> Seq<u8> {
    seq![
        (n % 256) as u8,
        (n / 256 % 256) as u8,
        (n / 65536 % 256) as u8,
        (n / 16777216 % 256) as u8,
    ]
}

/// The characters of ASCII texts, as bytes.
pub open spec fn tag(a: int, b: int, c: int, d: int) -> Seq<u8> {
    seq![a as u8, b as u8, c as u8, d as u8]
}

/// The bytes before `n` samples at `rate`: `RIFF`, the length of what follows, `WAVE`, then `fmt `
/// with the format, and `data` with the length of the samples.
pub open spec fn header(n: int, rate: int) -> Seq<u8> {
    tag(0x52, 0x49, 0x46, 0x46) + le4(36 + 2 * n) + tag(0x57, 0x41, 0x56, 0x45) + tag(
        0x66,
        0x6d,
        0x74,
        0x20,
    ) + le4(16) + le2(1) + le2(1) + le4(rate) + le4(2 * rate) + le2(2) + le2(16) + tag(
        0x64,
        0x61,
        0x74,
        0x61,
    ) + le4(2 * n)
}

/// A sample as an unsigned number, in two's complement.
pub open spec fn unsigned(v: i16) -> int {
    if v >= 0 {
        v as int
    } else {
        v + 65536
    }
}

/// The bytes of the samples.
pub open spec fn data(samples: Seq<i16>) -> Seq<u8> {
    Seq::new(
        2 * samples.len(),
        |i: int|
            if i % 2 == 0 {
                (unsigned(samples[i / 2]) % 256) as u8
            } else {
                (unsigned(samples[i / 2]) / 256) as u8
            },
    )
}

fn push2(out: &mut Vec<u8>, n: u16)
    ensures
        final(out)@ == old(out)@ + le2(n as int),
{
    out.push((n % 256) as u8);
    out.push((n / 256) as u8);
    assert(out@ =~= old(out)@ + le2(n as int));
}

fn push4(out: &mut Vec<u8>, n: u32)
    ensures
        final(out)@ == old(out)@ + le4(n as int),
{
    out.push((n % 256) as u8);
    out.push((n / 256 % 256) as u8);
    out.push((n / 65536 % 256) as u8);
    out.push((n / 16777216) as u8);
    assert(out@ =~= old(out)@ + le4(n as int));
}

fn push_tag(out: &mut Vec<u8>, a: u8, b: u8, c: u8, d: u8)
    ensures
        final(out)@ == old(out)@ + tag(a as int, b as int, c as int, d as int),
{
    out.push(a);
    out.push(b);
    out.push(c);
    out.push(d);
    assert(out@ =~= old(out)@ + tag(a as int, b as int, c as int, d as int));
}

/// The bytes before `n` samples at `rate`.
pub fn wav_header(n: u32, rate: u32) -> (r: Vec<u8>)
    requires
        36 + 2 * n <= u32::MAX,
        2 * rate <= u32::MAX,
    ensures
        r@ == header(n as int, rate as int),
{
    let mut r: Vec<u8> = Vec::new();
    push_tag(&mut r, 0x52, 0x49, 0x46, 0x46);
    push4(&mut r, 36 + 2 * n);
    push_tag(&mut r, 0x57, 0x41, 0x56, 0x45);
    push_tag(&mut r, 0x66, 0x6d, 0x74, 0x20);
    push4(&mut r, 16);
    push2(&mut r, 1);
    push2(&mut r, 1);
    push4(&mut r, rate);
    push4(&mut r, 2 * rate);
    push2(&mut r, 2);
    push2(&mut r, 16);
    push_tag(&mut r, 0x64, 0x61, 0x74, 0x61);
    push4(&mut r, 2 * n);
    assert(r@ =~= header(n as int, rate as int));
    r
}

/// The WAV file with the samples at `rate`. Its length has to fit the four bytes that hold it, and so
/// has the number of bytes per second.
pub fn render_wav(samples: &[i16], rate: u32) -> (r: Vec<u8>)
    requires
        36 + 2 * samples@.len() <= u32::MAX,
        2 * rate <= u32::MAX,
    ensures
        r@ == header(samples@.len() as int, rate as int) + data(samples@),
{
    let n = samples.len();
    let mut r = wav_header(n as u32, rate);
    let ghost head = r@;
    let mut i: usize = 0;
    assert(r@ =~= head + data(samples@.take(0)));
    while i < n
        invariant
            n == samples@.len(),
            i <= n,
            r@ == head + data(samples@.take(i as int)),
        decreases n - i,
    {
        let v: i16 = samples[i];
        let w: u16 = if v >= 0 {
            v as u16
        } else {
            (v as i32 + 65536) as u16
        };
        r.push((w % 256) as u8);
        r.push((w / 256) as u8);
        assert(w == unsigned(v));
        assert(r@ =~= head + data(samples@.take(i + 1)));
        i = i + 1;
    }
    assert(samples@.take(n as int) == samples@);
    r
}

// ── Laws ───────────────────────────────────────────────

/// The number that two bytes are read as.
pub open spec fn from_le2(lo: u8, hi: u8) -> int {
    lo + 256 * hi
}

/// The number that four bytes are read as.
pub open spec fn from_le4(b: Seq<u8>) -> int {
    b[0] + 256 * b[1] + 65536 * b[2] + 16777216 * b[3]
}

/// The sample that two bytes are read as.
pub open spec fn sample_of(lo: u8, hi: u8) -> int {
    let n = from_le2(lo, hi);
    if n < 32768 {
        n
    } else {
        n - 65536
    }
}

/// The header has its fixed length, so that the samples begin where players look for them.
pub proof fn header_has_its_length(n: int, rate: int)
    ensures
        header(n, rate).len() == HEADER_LEN,
{
}

proof fn lemma_le4_reads_back(n: int)
    requires
        0 <= n <= u32::MAX,
    ensures
        from_le4(le4(n)) == n,
{
}

/// What the file says of itself is read back from it: how long it is, how many bytes of samples it
/// has, its rate and its bytes per second.
pub proof fn header_reads_back(n: int, rate: int)
    requires
        0 <= n,
        0 <= rate,
        36 + 2 * n <= u32::MAX,
        2 * rate <= u32::MAX,
    ensures
        from_le4(header(n, rate).subrange(4, 8)) == 36 + 2 * n,
        from_le4(header(n, rate).subrange(24, 28)) == rate,
        from_le4(header(n, rate).subrange(28, 32)) == 2 * rate,
        from_le4(header(n, rate).subrange(40, 44)) == 2 * n,
{
    let h = header(n, rate);
    assert(h.subrange(4, 8) =~= le4(36 + 2 * n));
    assert(h.subrange(24, 28) =~= le4(rate));
    assert(h.subrange(28, 32) =~= le4(2 * rate));
    assert(h.subrange(40, 44) =~= le4(2 * n));
    lemma_le4_reads_back(36 + 2 * n);
    lemma_le4_reads_back(rate);
    lemma_le4_reads_back(2 * rate);
    lemma_le4_reads_back(2 * n);
}

/// The samples are read back from the file as they were.
pub proof fn samples_read_back(samples: Seq<i16>, rate: int, i: int)
    requires
        0 <= i < samples.len(),
    ensures
        ({
            let file = header(samples.len() as int, rate) + data(samples);
            sample_of(file[HEADER_LEN + 2 * i], file[HEADER_LEN + 2 * i + 1]) == samples[i]
        }),
{
    let file = header(samples.len() as int, rate) + data(samples);
    assert(file[HEADER_LEN + 2 * i] == data(samples)[2 * i]);
    assert(file[HEADER_LEN + 2 * i + 1] == data(samples)[2 * i + 1]);
}

/// The file begins as the format has it: the four letters `RIFF`, the four letters `WAVE` behind the
/// length, and a format of sixteen bytes: plain samples, one channel, two bytes per frame and sixteen
/// bits per sample; then `data`.
pub proof fn the_format_is_one_channel_of_sixteen_bits(n: u32, rate: u32, r: Vec<u8>)
    requires
        36 + 2 * n <= u32::MAX,
        2 * rate <= u32::MAX,
        call_ensures(wav_header, (n, rate), r),
    ensures
        r@.len() == 44,
        r@[0] == 82 && r@[1] == 73 && r@[2] == 70 && r@[3] == 70,
        r@[8] == 87 && r@[9] == 65 && r@[10] == 86 && r@[11] == 69,
        r@[12] == 102 && r@[13] == 109 && r@[14] == 116 && r@[15] == 32,
        r@[16] == 16 && r@[17] == 0 && r@[18] == 0 && r@[19] == 0,
        r@[20] == 1 && r@[21] == 0,
        r@[22] == 1 && r@[23] == 0,
        r@[32] == 2 && r@[33] == 0,
        r@[34] == 16 && r@[35] == 0,
        r@[36] == 100 && r@[37] == 97 && r@[38] == 116 && r@[39] == 97,
{
    let h = header(n as int, rate as int);
    lemma_fixed_bytes(n as int, rate as int);
    assert(r@ == h);
    assert(h.subrange(0, 4)[0] == h[0] && h.subrange(0, 4)[1] == h[1] && h.subrange(0, 4)[2] == h[2]
        && h.subrange(0, 4)[3] == h[3]);
    assert(h.subrange(8, 16)[0] == h[8] && h.subrange(8, 16)[1] == h[9] && h.subrange(8, 16)[2]
        == h[10] && h.subrange(8, 16)[3] == h[11] && h.subrange(8, 16)[4] == h[12] && h.subrange(
        8,
        16,
    )[5] == h[13] && h.subrange(8, 16)[6] == h[14] && h.subrange(8, 16)[7] == h[15]);
    assert(h.subrange(16, 24)[0] == h[16] && h.subrange(16, 24)[1] == h[17] && h.subrange(16, 24)[2]
        == h[18] && h.subrange(16, 24)[3] == h[19] && h.subrange(16, 24)[4] == h[20] && h.subrange(
        16,
        24,
    )[5] == h[21] && h.subrange(16, 24)[6] == h[22] && h.subrange(16, 24)[7] == h[23]);
    assert(h.subrange(32, 40)[0] == h[32] && h.subrange(32, 40)[1] == h[33] && h.subrange(32, 40)[2]
        == h[34] && h.subrange(32, 40)[3] == h[35] && h.subrange(32, 40)[4] == h[36] && h.subrange(
        32,
        40,
    )[5] == h[37] && h.subrange(32, 40)[6] == h[38] && h.subrange(32, 40)[7] == h[39]);
}

proof fn lemma_fixed_bytes(n: int, rate: int)
    ensures
        header(n, rate).len() == 44,
        header(n, rate).subrange(0, 4) == seq![82u8, 73, 70, 70],
        header(n, rate).subrange(8, 16) == seq![87u8, 65, 86, 69, 102, 109, 116, 32],
        header(n, rate).subrange(16, 24) == seq![16u8, 0, 0, 0, 1, 0, 1, 0],
        header(n, rate).subrange(32, 40) == seq![2u8, 0, 16, 0, 100, 97, 116, 97],
{
    let h = header(n, rate);
    assert(h.subrange(0, 4) =~= seq![82u8, 73, 70, 70]);
    assert(h.subrange(8, 16) =~= seq![87u8, 65, 86, 69, 102, 109, 116, 32]);
    assert(h.subrange(16, 24) =~= seq![16u8, 0, 0, 0, 1, 0, 1, 0]);
    assert(h.subrange(32, 40) =~= seq![2u8, 0, 16, 0, 100, 97, 116, 97]);
}

/// What the header says of the file is read back from its bytes, the low ones first: the length of all
/// that follows, the rate, the bytes per second and the length of the samples.
pub proof fn lengths_are_read_back(n: u32, rate: u32, r: Vec<u8>)
    requires
        36 + 2 * n <= u32::MAX,
        2 * rate <= u32::MAX,
        call_ensures(wav_header, (n, rate), r),
    ensures
        r@[4] + 256 * r@[5] + 65536 * r@[6] + 16777216 * r@[7] == 36 + 2 * n,
        r@[24] + 256 * r@[25] + 65536 * r@[26] + 16777216 * r@[27] == rate,
        r@[28] + 256 * r@[29] + 65536 * r@[30] + 16777216 * r@[31] == 2 * rate,
        r@[40] + 256 * r@[41] + 65536 * r@[42] + 16777216 * r@[43] == 2 * n,
{
    header_has_its_length(n as int, rate as int);
    header_reads_back(n as int, rate as int);
}

/// A file is the header for its samples and then the samples, each as two bytes in two's complement,
/// the low one first, and nothing else.
pub proof fn files_hold_header_and_samples(
    samples: &[i16],
    rate: u32,
    n: u32,
    head: Vec<u8>,
    r: Vec<u8>,
    i: int,
)
    requires
        36 + 2 * samples@.len() <= u32::MAX,
        2 * rate <= u32::MAX,
        n == samples@.len(),
        call_ensures(wav_header, (n, rate), head),
        call_ensures(render_wav, (samples, rate), r),
    ensures
        r@.len() == 44 + 2 * samples@.len(),
        r@.take(44) == head@,
        0 <= i < samples@.len() ==> {
            let v = r@[44 + 2 * i] + 256 * r@[44 + 2 * i + 1];
            samples@[i] == if v < 32768 {
                v
            } else {
                v - 65536
            }
        },
{
    header_has_its_length(n as int, rate as int);
    assert(r@.take(44) =~= head@);
    if 0 <= i < samples@.len() {
        samples_read_back(samples@, rate as int, i);
    }
}

} // verus!
