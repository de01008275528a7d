//! Content digests used as a freshness gate for cached files.
use vstd::prelude::*;

verus! {

/// The MD5 digest (sixteen bytes) of a byte sequence.
pub uninterp spec fn md5_of(data: Seq<u8>) -> Seq<u8>;

/// The bytes fed so far into an MD5 hashing context.
pub uninterp spec fn md5_input(ctx: md5::Context) -> Seq<u8>;

#[verifier::external_type_specification]
#[verifier::external_body]
pub struct ExMd5Context(md5::Context);

/// Relies on md5::Context::new: a fresh context has consumed nothing.
#[verifier::external_body]
fn md5_context_new() -> (r: md5::Context)
    ensures
        md5_input(r) == Seq::<u8>::empty(),
{
    md5::Context::new()
}

/// Relies on md5::Context::consume: the data is appended to what the context has consumed.
#[verifier::external_body]
fn md5_context_consume(ctx: &mut md5::Context, data: &[u8])
    ensures
        md5_input(*final(ctx)) == md5_input(*old(ctx)) + data@,
{
    ctx.consume(data)
}

/// Relies on md5::Context::compute: the digest of everything the context consumed.
#[verifier::external_body]
fn md5_context_compute(ctx: md5::Context) -> (r: [u8; 16])
    ensures
        r@ == md5_of(md5_input(ctx)),
{
    ctx.compute().0
}

/// Relies on String::push: the character is appended at the end.
#[verifier::external_body]
fn push_char(s: &mut String, c: char)
    ensures
        final(s)@ == old(s)@.push(c),
{
    s.push(c)
}

/// The lower-case hexadecimal digit for a value below sixteen.
pub open spec fn hex_digit(v: int) -> char {
    if v < 10 {
        (('0' as int) + v) as char
    } else {
        (('a' as int) + v - 10) as char
    }
}

/// Two lower-case hexadecimal digits per byte, most significant digit first.
pub open spec fn hex_of(bytes: Seq<u8>) -> Seq<char>
    decreases bytes.len(),
{
    if bytes.len() == 0 {
        Seq::empty()
    } else {
        let b = bytes.last() as int;
        hex_of(bytes.drop_last()) + seq![hex_digit(b / 16), hex_digit(b % 16)]
    }
}

fn hex_digit_char(v: u8) -> (c: char)
    requires
        v < 16,
    ensures
        c == hex_digit(v as int),
{
    if v < 10 {
        ((48u8 + v) as char)
    } else {
        ((87u8 + v) as char)
    }
}

/// Renders bytes as lower-case hexadecimal text.
pub fn hex_lower(bytes: &[u8]) -> (r: String)
    ensures
        r@ == hex_of(bytes@),
{
    let mut r = String::new();
    let mut i: usize = 0;
    while i < bytes.len()
        invariant
            i <= bytes@.len(),
            r@ == hex_of(bytes@.subrange(0, i as int)),
        decreases bytes@.len() - i,
    {
        let b = bytes[i];
        push_char(&mut r, hex_digit_char(b / 16));
        push_char(&mut r, hex_digit_char(b % 16));
        assert(bytes@.subrange(0, i + 1).drop_last() =~= bytes@.subrange(0, i as int));
        i = i + 1;
    }
    assert(bytes@.subrange(0, i as int) =~= bytes@);
    r
}

/// The hexadecimal text of the MD5 digest of a byte sequence.
pub open spec fn md5_hex(data: Seq<u8>) -> Seq<char> {
    hex_of(md5_of(data))
}

/// A streaming MD5 computation: bytes are fed chunk by chunk, never held whole.
pub struct Md5Stream {
    ctx: md5::Context,
    fed: Ghost<Seq<u8>>,
}

impl Md5Stream {
    /// Everything fed into the stream so far.
    pub closed spec fn consumed(&self) -> Seq<u8> {
        self.fed@
    }

    pub closed spec fn wf(&self) -> bool {
        md5_input(self.ctx) == self.fed@
    }

    pub fn new() -> (r: Md5Stream)
        ensures
            r.wf(),
            r.consumed() == Seq::<u8>::empty(),
    {
        Md5Stream { ctx: md5_context_new(), fed: Ghost(Seq::empty()) }
    }

    /// Folds one chunk into the running digest.
    pub fn update(&mut self, chunk: &[u8])
        requires
            old(self).wf(),
        ensures
            final(self).wf(),
            final(self).consumed() == old(self).consumed() + chunk@,
    {
        md5_context_consume(&mut self.ctx, chunk);
        self.fed = Ghost(self.fed@ + chunk@);
    }

    /// The lower-case hexadecimal digest of everything fed.
    pub fn finish(self) -> (r: String)
        requires
            self.wf(),
        ensures
            r@ == md5_hex(self.consumed()),
    {
        let d = md5_context_compute(self.ctx);
        hex_lower(&d)
    }
}

/// ASCII lower-casing of one character; other characters are kept.
pub open spec fn ascii_lower(c: char) -> char {
    if 'A' <= c && c <= 'Z' {
        ((c as int) + 32) as char
    } else {
        c
    }
}

/// Two texts are equal once ASCII letters are lower-cased.
pub open spec fn eq_ignore_ascii_case(a: Seq<char>, b: Seq<char>) -> bool {
    a.len() == b.len() && forall|i: int| 0 <= i < a.len() ==> ascii_lower(#[trigger] a[i]) == ascii_lower(b[i])
}

fn ascii_lower_char(c: char) -> (r: char)
    ensures
        r == ascii_lower(c),
{
    if 'A' <= c && c <= 'Z' {
        ((c as u32 + 32) as u8) as char
    } else {
        c
    }
}

/// Compares two digests as hexadecimal text, regardless of letter case.
pub fn digests_match(a: &str, b: &str) -> (r: bool)
    ensures
        r == eq_ignore_ascii_case(a@, b@),
{
    let n = a.unicode_len();
    if n != b.unicode_len() {
        return false;
    }
    let mut i: usize = 0;
    while i < n
        invariant
            n == a@.len(),
            n == b@.len(),
            i <= n,
            forall|j: int| 0 <= j < i ==> ascii_lower(#[trigger] a@[j]) == ascii_lower(b@[j]),
        decreases n - i,
    {
        if ascii_lower_char(a.get_char(i)) != ascii_lower_char(b.get_char(i)) {
            return false;
        }
        i = i + 1;
    }
    true
}

} // verus!
