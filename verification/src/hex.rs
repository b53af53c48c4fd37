use vstd::prelude::*;
use vstd::arithmetic::div_mod::lemma_fundamental_div_mod_converse;

verus! {

// ---------------------------------------------------------------------------
// Hex digits and byte encoding
// ---------------------------------------------------------------------------
/// The uppercase hexadecimal digit character for `n`.
pub open spec fn hex_digit(n: int) -> char {
    if n == 0 {
        '0'
    } else if n == 1 {
        '1'
    } else if n == 2 {
        '2'
    } else if n == 3 {
        '3'
    } else if n == 4 {
        '4'
    } else if n == 5 {
        '5'
    } else if n == 6 {
        '6'
    } else if n == 7 {
        '7'
    } else if n == 8 {
        '8'
    } else if n == 9 {
        '9'
    } else if n == 10 {
        'A'
    } else if n == 11 {
        'B'
    } else if n == 12 {
        'C'
    } else if n == 13 {
        'D'
    } else if n == 14 {
        'E'
    } else {
        'F'
    }
}

/// The numeric value of an uppercase hexadecimal digit character, `-1` for
/// any other character.
pub open spec fn hex_val(c: char) -> int {
    if c == '0' {
        0
    } else if c == '1' {
        1
    } else if c == '2' {
        2
    } else if c == '3' {
        3
    } else if c == '4' {
        4
    } else if c == '5' {
        5
    } else if c == '6' {
        6
    } else if c == '7' {
        7
    } else if c == '8' {
        8
    } else if c == '9' {
        9
    } else if c == 'A' {
        10
    } else if c == 'B' {
        11
    } else if c == 'C' {
        12
    } else if c == 'D' {
        13
    } else if c == 'E' {
        14
    } else if c == 'F' {
        15
    } else {
        -1
    }
}

/// One byte as two uppercase hexadecimal digits.
pub open spec fn byte_hex(b: u8) -> Seq<char> {
    seq![hex_digit(b as int / 16), hex_digit(b as int % 16)]
}

/// A byte sequence as hexadecimal text, two digits per byte, in order.
pub open spec fn bytes_hex(s: Seq<u8>) -> Seq<char>
    decreases s.len(),
{
    if s.len() == 0 {
        Seq::empty()
    } else {
        byte_hex(s[0]) + bytes_hex(s.drop_first())
    }
}

/// Decode hexadecimal text back into bytes, one byte per digit pair; a
/// trailing odd digit is dropped.
pub open spec fn hex_to_bytes(h: Seq<char>) -> Seq<u8>
    decreases h.len(),
{
    if h.len() < 2 {
        Seq::empty()
    } else {
        seq![(hex_val(h[0]) * 16 + hex_val(h[1])) as u8] + hex_to_bytes(h.skip(2))
    }
}

/// Encoding a byte sequence yields two digits per byte.
pub proof fn lemma_bytes_hex_len(s: Seq<u8>)
    ensures
        bytes_hex(s).len() == 2 * s.len(),
    decreases s.len(),
{
    if s.len() > 0 {
        lemma_bytes_hex_len(s.drop_first());
    }
}

/// Encoding distributes over concatenation.
pub proof fn lemma_bytes_hex_concat(a: Seq<u8>, b: Seq<u8>)
    ensures
        bytes_hex(a + b) == bytes_hex(a) + bytes_hex(b),
    decreases a.len(),
{
    if a.len() == 0 {
        assert(a + b =~= b);
        assert(bytes_hex(a) + bytes_hex(b) =~= bytes_hex(b));
    } else {
        lemma_bytes_hex_concat(a.drop_first(), b);
        assert((a + b).drop_first() =~= a.drop_first() + b);
        assert(byte_hex(a[0]) + (bytes_hex(a.drop_first()) + bytes_hex(b)) =~= (byte_hex(a[0])
            + bytes_hex(a.drop_first())) + bytes_hex(b));
    }
}

/// Round trip: decoding the hexadecimal text of a byte sequence returns the
/// bytes unchanged — the rendered blocks carry the data faithfully.
pub proof fn lemma_hex_round_trip(s: Seq<u8>)
    ensures
        hex_to_bytes(bytes_hex(s)) == s,
    decreases s.len(),
{
    if s.len() == 0 {
        assert(hex_to_bytes(bytes_hex(s)) =~= s);
    } else {
        lemma_hex_round_trip(s.drop_first());
        let h = bytes_hex(s);
        lemma_bytes_hex_len(s);
        assert(h.skip(2) =~= bytes_hex(s.drop_first()));
        assert(hex_val(h[0]) * 16 + hex_val(h[1]) == s[0]);
        assert(hex_to_bytes(h) =~= s);
    }
}

// ---------------------------------------------------------------------------
// Layout
// ---------------------------------------------------------------------------
/// How many 4-byte blocks fit on one line of the given character width: 6
/// columns are reserved for the line-info prefix and each block takes 9 (8
/// digit characters plus a separator). A width too small for the prefix
/// yields zero blocks rather than underflowing.
pub open spec fn blocks_per_line_spec(width: u16) -> nat {
    if width < 6 {
        0
    } else {
        ((width - 6) / 9) as nat
    }
}

/// Total lines emitted for `len` bytes at `bpl` blocks per line:
/// `ceil(len / (4 * bpl))`.
pub open spec fn line_count(len: nat, bpl: nat) -> nat
    recommends
        bpl >= 1,
{
    (((len + 4 * bpl - 1) as int) / ((4 * bpl) as int)) as nat
}

/// The hexadecimal representation of `n`, most significant digit first,
/// with no leading zeros (a single `'0'` for zero).
pub open spec fn hex_rep(n: nat) -> Seq<char>
    decreases n,
{
    if n < 16 {
        seq![hex_digit(n as int)]
    } else {
        hex_rep(n / 16) + seq![hex_digit((n % 16) as int)]
    }
}

/// The offset label of line `l`: its hexadecimal line counter zero-padded
/// to three digits.
pub open spec fn line_label(l: nat) -> Seq<char> {
    if l < 16 {
        seq!['0', '0'] + hex_rep(l)
    } else if l < 256 {
        seq!['0'] + hex_rep(l)
    } else {
        hex_rep(l)
    }
}

/// The fixed-width line-info prefix: the offset label followed by a
/// three-column gap.
pub open spec fn label_prefix(l: nat) -> Seq<char> {
    line_label(l) + seq![' ', ' ', ' ']
}

/// The digit characters of the block starting at byte offset `off`: up to 4
/// bytes, two digits each; only the available bytes are rendered, with no
/// padding.
pub open spec fn block_chars(data: Seq<u8>, off: int) -> Seq<char> {
    if off < 0 || off >= data.len() {
        Seq::empty()
    } else {
        bytes_hex(
            data.subrange(
                off,
                if off + 4 <= data.len() {
                    off + 4
                } else {
                    data.len() as int
                },
            ),
        )
    }
}

/// The first `k` blocks of a line starting at byte offset `off`, each
/// followed by its one-column separator.
pub open spec fn blocks_render(data: Seq<u8>, off: int, k: nat) -> Seq<char>
    decreases k,
{
    if k == 0 {
        Seq::empty()
    } else {
        blocks_render(data, off, (k - 1) as nat) + block_chars(data, off + 4 * (k - 1)) + seq![' ']
    }
}

/// One full emitted line: prefix, `bpl` blocks, newline.
pub open spec fn hex_line(data: Seq<u8>, bpl: nat, l: nat) -> Seq<char> {
    label_prefix(l) + blocks_render(data, l * (4 * bpl) as int, bpl) + seq!['\n']
}

/// The first `l` emitted lines, concatenated.
pub open spec fn hex_text_upto(data: Seq<u8>, bpl: nat, l: nat) -> Seq<char>
    decreases l,
{
    if l == 0 {
        Seq::empty()
    } else {
        hex_text_upto(data, bpl, (l - 1) as nat) + hex_line(data, bpl, (l - 1) as nat)
    }
}

/// The whole text block emitted for `data` at the given width: same buffer
/// and width always give identical output. Zero blocks per line renders
/// nothing.
pub open spec fn hex_text(data: Seq<u8>, width: u16) -> Seq<char> {
    let bpl = blocks_per_line_spec(width);
    if bpl == 0 {
        Seq::empty()
    } else {
        hex_text_upto(data, bpl, line_count(data.len(), bpl))
    }
}

// ---------------------------------------------------------------------------
// Coverage: the emitted blocks carry exactly the buffer's bytes
// ---------------------------------------------------------------------------
/// The digit characters of the first `k` blocks at `off` with the
/// separator columns dropped — what a reader collecting only the block
/// text of one line sees.
pub open spec fn blocks_payload(data: Seq<u8>, off: int, k: nat) -> Seq<char>
    decreases k,
{
    if k == 0 {
        Seq::empty()
    } else {
        blocks_payload(data, off, (k - 1) as nat) + block_chars(data, off + 4 * (k - 1))
    }
}

/// The block text of the first `l` lines concatenated, labels and
/// separators dropped.
pub open spec fn hex_payload_upto(data: Seq<u8>, bpl: nat, l: nat) -> Seq<char>
    decreases l,
{
    if l == 0 {
        Seq::empty()
    } else {
        hex_payload_upto(data, bpl, (l - 1) as nat) + blocks_payload(
            data,
            (l - 1) * (4 * bpl) as int,
            bpl,
        )
    }
}

/// The block text of every emitted line, labels and separators dropped.
pub open spec fn hex_payload(data: Seq<u8>, bpl: nat) -> Seq<char> {
    hex_payload_upto(data, bpl, line_count(data.len(), bpl))
}

/// The first `k` blocks at `off` hold the hexadecimal text of the bytes
/// from `off` to `off + 4k`, clamped to the buffer.
proof fn lemma_blocks_payload(data: Seq<u8>, off: int, k: nat)
    requires
        0 <= off,
    ensures
        blocks_payload(data, off, k) == bytes_hex(
            data.subrange(
                if off <= data.len() {
                    off
                } else {
                    data.len() as int
                },
                if off + 4 * k <= data.len() {
                    off + 4 * k
                } else {
                    data.len() as int
                },
            ),
        ),
    decreases k,
{
    let len = data.len() as int;
    let lo: int = if off <= len {
        off
    } else {
        len
    };
    if k == 0 {
        assert(bytes_hex(data.subrange(lo, lo)) =~= Seq::<char>::empty());
    } else {
        lemma_blocks_payload(data, off, (k - 1) as nat);
        let o2 = off + 4 * (k - 1);
        let m: int = if o2 <= len {
            o2
        } else {
            len
        };
        let hi: int = if off + 4 * k <= len {
            off + 4 * k
        } else {
            len
        };
        if o2 >= len {
            assert(block_chars(data, o2) =~= Seq::<char>::empty());
            assert(bytes_hex(data.subrange(lo, m)) + Seq::<char>::empty() =~= bytes_hex(
                data.subrange(lo, hi),
            ));
        } else {
            lemma_bytes_hex_concat(data.subrange(lo, m), data.subrange(m, hi));
            assert(data.subrange(lo, m) + data.subrange(m, hi) =~= data.subrange(lo, hi));
        }
    }
}

/// The blocks of the first `l` lines hold the hexadecimal text of the
/// bytes up to `l` full lines, clamped to the buffer.
proof fn lemma_hex_payload_upto(data: Seq<u8>, bpl: nat, l: nat)
    requires
        1 <= bpl,
    ensures
        hex_payload_upto(data, bpl, l) == bytes_hex(
            data.subrange(
                0,
                if l * (4 * bpl) <= data.len() {
                    l * (4 * bpl) as int
                } else {
                    data.len() as int
                },
            ),
        ),
    decreases l,
{
    let len = data.len() as int;
    let q = (4 * bpl) as int;
    if l == 0 {
        vstd::arithmetic::mul::lemma_mul_basics(q);
        assert(l * (4 * bpl) == 0) by (nonlinear_arith)
            requires
                l == 0,
        ;
        assert(bytes_hex(data.subrange(0, 0)) =~= Seq::<char>::empty());
    } else {
        lemma_hex_payload_upto(data, bpl, (l - 1) as nat);
        let off = (l - 1) * q;
        vstd::arithmetic::mul::lemma_mul_is_distributive_sub_other_way(q, l as int, 1);
        vstd::arithmetic::mul::lemma_mul_basics(q);
        vstd::arithmetic::mul::lemma_mul_nonnegative(l - 1, q);
        vstd::arithmetic::mul::lemma_mul_nonnegative(l as int, q);
        assert(l * q == off + 4 * bpl);
        lemma_blocks_payload(data, off, bpl);
        let m: int = if off <= len {
            off
        } else {
            len
        };
        let hi: int = if l * q <= len {
            l * q
        } else {
            len
        };
        lemma_bytes_hex_concat(data.subrange(0, m), data.subrange(m, hi));
        assert(data.subrange(0, m) + data.subrange(m, hi) =~= data.subrange(0, hi));
        assert(hex_payload_upto(data, bpl, l) == bytes_hex(data.subrange(0, hi)));
    }
}

/// Coverage law: at any width wide enough for at least one block,
/// concatenating all emitted blocks — ignoring labels and separators —
/// yields the hexadecimal text of the whole buffer, and decoding that text
/// reconstructs the original bytes in order.
pub proof fn lemma_hex_covers_data(data: Seq<u8>, width: u16)
    requires
        1 <= blocks_per_line_spec(width),
    ensures
        hex_payload(data, blocks_per_line_spec(width)) == bytes_hex(data),
        hex_to_bytes(hex_payload(data, blocks_per_line_spec(width))) == data,
{
    let bpl = blocks_per_line_spec(width);
    let len = data.len() as int;
    let q = (4 * bpl) as int;
    let count = line_count(data.len(), bpl);
    vstd::arithmetic::div_mod::lemma_fundamental_div_mod(len + q - 1, q);
    assert(count * q >= len) by (nonlinear_arith)
        requires
            q >= 4,
            len >= 0,
            count == (len + q - 1) / q,
            len + q - 1 == q * ((len + q - 1) / q) + (len + q - 1) % q,
            0 <= (len + q - 1) % q < q,
    ;
    lemma_hex_payload_upto(data, bpl, count);
    assert(data.subrange(0, len) =~= data);
    lemma_hex_round_trip(data);
}

// ---------------------------------------------------------------------------
// Separators
// ---------------------------------------------------------------------------
/// The predicate keeping everything but the one-column block separator.
pub open spec fn non_separator() -> spec_fn(char) -> bool {
    |c: char| c != ' '
}

/// No character of `s` is a separator column.
pub open spec fn has_no_space(s: Seq<char>) -> bool {
    forall|i: int| 0 <= i < s.len() ==> s[i] != ' '
}

/// A filter that keeps every element leaves the sequence unchanged.
proof fn lemma_filter_keeps_all(s: Seq<char>, pred: spec_fn(char) -> bool)
    requires
        forall|i: int| 0 <= i < s.len() ==> pred(s[i]),
    ensures
        s.filter(pred) == s,
    decreases s.len(),
{
    reveal(Seq::filter);
    if s.len() > 0 {
        lemma_filter_keeps_all(s.drop_last(), pred);
        assert(s.drop_last().push(s.last()) =~= s);
    }
}

proof fn lemma_bytes_hex_no_space(s: Seq<u8>)
    ensures
        has_no_space(bytes_hex(s)),
    decreases s.len(),
{
    if s.len() > 0 {
        lemma_bytes_hex_no_space(s.drop_first());
    }
}

/// Separator law: dropping the separator columns from a line's rendered
/// blocks leaves exactly the digit characters that the coverage law
/// decodes — "ignoring separators" loses no data.
#[verifier::rlimit(30)]
pub proof fn lemma_blocks_render_strip_separators(data: Seq<u8>, off: int, k: nat)
    ensures
        blocks_render(data, off, k).filter(non_separator()) == blocks_payload(data, off, k),
    decreases k,
{
    if k == 0 {
        assert(blocks_render(data, off, 0).filter(non_separator()) =~= Seq::<char>::empty()) by {
            reveal(Seq::filter);
        }
    } else {
        lemma_blocks_render_strip_separators(data, off, (k - 1) as nat);
        let o2 = off + 4 * (k - 1);
        let block = block_chars(data, o2);
        let rendered = blocks_render(data, off, (k - 1) as nat);
        let stripped = blocks_payload(data, off, (k - 1) as nat);
        let sep = seq![' '];
        if !(o2 < 0 || o2 >= data.len()) {
            lemma_bytes_hex_no_space(
                data.subrange(
                    o2,
                    if o2 + 4 <= data.len() {
                        o2 + 4
                    } else {
                        data.len() as int
                    },
                ),
            );
        }
        lemma_filter_keeps_all(block, non_separator());
        Seq::filter_distributes_over_add(rendered, block, non_separator());
        Seq::filter_distributes_over_add(rendered + block, sep, non_separator());
        assert(sep.filter(non_separator()) =~= Seq::<char>::empty()) by {
            reveal_with_fuel(Seq::filter, 2);
            assert(seq![' '].drop_last() =~= Seq::<char>::empty());
        }
        assert(((rendered + block) + sep).filter(non_separator()) == (stripped + block)
            + Seq::<char>::empty());
        assert((stripped + block) + Seq::<char>::empty() =~= stripped + block);
    }
}

// ---------------------------------------------------------------------------
// Line count
// ---------------------------------------------------------------------------
/// The predicate picking out newline characters.
pub open spec fn nl_pred() -> spec_fn(char) -> bool {
    |c: char| c == '\n'
}

/// How many newline characters — emitted lines — the text holds.
pub open spec fn newline_count(s: Seq<char>) -> nat {
    s.filter(nl_pred()).len()
}

/// No character of `s` is a newline.
pub open spec fn has_no_newline(s: Seq<char>) -> bool {
    forall|i: int| 0 <= i < s.len() ==> s[i] != '\n'
}

proof fn lemma_no_newline_filter_empty(s: Seq<char>)
    requires
        has_no_newline(s),
    ensures
        s.filter(nl_pred()) == Seq::<char>::empty(),
{
    assert(s.all(|c: char| !(nl_pred()(c))));
    s.lemma_all_neg_filter_empty(nl_pred());
    assert(s.filter(nl_pred()) =~= Seq::<char>::empty());
}

proof fn lemma_hex_rep_no_newline(n: nat)
    ensures
        has_no_newline(hex_rep(n)),
    decreases n,
{
    if n >= 16 {
        lemma_hex_rep_no_newline(n / 16);
    }
}

proof fn lemma_bytes_hex_no_newline(s: Seq<u8>)
    ensures
        has_no_newline(bytes_hex(s)),
    decreases s.len(),
{
    if s.len() > 0 {
        lemma_bytes_hex_no_newline(s.drop_first());
    }
}

proof fn lemma_blocks_render_no_newline(data: Seq<u8>, off: int, k: nat)
    ensures
        has_no_newline(blocks_render(data, off, k)),
    decreases k,
{
    if k > 0 {
        lemma_blocks_render_no_newline(data, off, (k - 1) as nat);
        let o2 = off + 4 * (k - 1);
        if !(o2 < 0 || o2 >= data.len()) {
            lemma_bytes_hex_no_newline(
                data.subrange(
                    o2,
                    if o2 + 4 <= data.len() {
                        o2 + 4
                    } else {
                        data.len() as int
                    },
                ),
            );
        }
    }
}

/// Every emitted line holds exactly one newline: the one that ends it.
proof fn lemma_hex_line_one_newline(data: Seq<u8>, bpl: nat, l: nat)
    ensures
        newline_count(hex_line(data, bpl, l)) == 1,
{
    let a = label_prefix(l);
    let b = blocks_render(data, l * (4 * bpl) as int, bpl);
    lemma_hex_rep_no_newline(l);
    assert(has_no_newline(a));
    lemma_blocks_render_no_newline(data, l * (4 * bpl) as int, bpl);
    lemma_no_newline_filter_empty(a);
    lemma_no_newline_filter_empty(b);
    Seq::filter_distributes_over_add(a, b, nl_pred());
    assert((a + b).filter(nl_pred()) =~= Seq::<char>::empty());
    Seq::filter_distributes_over_add(a + b, seq!['\n'], nl_pred());
    assert(seq!['\n'].filter(nl_pred()).len() == 1) by {
        reveal_with_fuel(Seq::<_>::filter, 2);
        assert(seq!['\n'].drop_last() =~= Seq::<char>::empty());
    }
    assert(hex_line(data, bpl, l) == (a + b) + seq!['\n']);
}

proof fn lemma_hex_text_upto_newlines(data: Seq<u8>, bpl: nat, l: nat)
    ensures
        newline_count(hex_text_upto(data, bpl, l)) == l,
    decreases l,
{
    if l > 0 {
        lemma_hex_text_upto_newlines(data, bpl, (l - 1) as nat);
        lemma_hex_line_one_newline(data, bpl, (l - 1) as nat);
        Seq::filter_distributes_over_add(
            hex_text_upto(data, bpl, (l - 1) as nat),
            hex_line(data, bpl, (l - 1) as nat),
            nl_pred(),
        );
    }
}

/// Line-count law: at any width wide enough for at least one block, the
/// emitted text holds exactly `ceil(len / (4 * blocks_per_line))` lines,
/// counted by their terminating newlines — none for an empty buffer.
pub proof fn lemma_hex_line_count(data: Seq<u8>, width: u16)
    requires
        1 <= blocks_per_line_spec(width),
    ensures
        newline_count(hex_text(data, width)) == line_count(
            data.len(),
            blocks_per_line_spec(width),
        ),
{
    lemma_hex_text_upto_newlines(
        data,
        blocks_per_line_spec(width),
        line_count(data.len(), blocks_per_line_spec(width)),
    );
}

// ---------------------------------------------------------------------------
// Executable rendering
// ---------------------------------------------------------------------------
fn hex_digit_char(n: u8) -> (c: char)
    requires
        n < 16,
    ensures
        c == hex_digit(n as int),
{
    match n {
        0 => '0',
        1 => '1',
        2 => '2',
        3 => '3',
        4 => '4',
        5 => '5',
        6 => '6',
        7 => '7',
        8 => '8',
        9 => '9',
        10 => 'A',
        11 => 'B',
        12 => 'C',
        13 => 'D',
        14 => 'E',
        _ => 'F',
    }
}

fn push_byte_hex(s: &mut String, b: u8)
    ensures
        final(s)@ == old(s)@ + byte_hex(b),
{
    s.push(hex_digit_char(b / 16));
    s.push(hex_digit_char(b % 16));
    assert(old(s)@.push(hex_digit(b as int / 16)).push(hex_digit(b as int % 16)) =~= old(s)@
        + byte_hex(b));
}

/// Append the digit characters of the block at `offset`.
fn push_block(s: &mut String, data: &Vec<u8>, offset: usize)
    ensures
        final(s)@ == old(s)@ + block_chars(data@, offset as int),
{
    if offset >= data.len() {
        assert(old(s)@ + block_chars(data@, offset as int) =~= old(s)@);
        return ;
    }
    let n: usize = data.len();
    let m: usize = if n - offset < 4 {
        n - offset
    } else {
        4
    };
    let ghost hi = offset + m;
    let mut i: usize = 0;
    while i < m
        invariant
            n == data@.len(),
            offset + m <= n,
            m <= 4,
            i <= m,
            hi == offset + m,
            s@ == old(s)@ + bytes_hex(data@.subrange(offset as int, offset + i)),
        decreases m - i,
    {
        proof {
            let x = data@[offset + i];
            lemma_bytes_hex_concat(data@.subrange(offset as int, offset + i), seq![x]);
            assert(data@.subrange(offset as int, offset + i) + seq![x] =~= data@.subrange(
                offset as int,
                offset + i + 1,
            ));
            assert(seq![x].drop_first() =~= Seq::<u8>::empty());
            assert(bytes_hex(seq![x].drop_first()) == Seq::<char>::empty());
            assert(byte_hex(x) + Seq::<char>::empty() =~= byte_hex(x));
            assert(bytes_hex(seq![x]) =~= byte_hex(x));
        }
        push_byte_hex(s, data[offset + i]);
        assert(s@ =~= old(s)@ + bytes_hex(data@.subrange(offset as int, offset + i + 1)));
        i = i + 1;
    }
    assert(s@ == old(s)@ + block_chars(data@, offset as int));
}

/// The block at byte offset `offset` as text: up to 4 bytes, two uppercase
/// hexadecimal digits each; offsets at or past the end of the buffer render
/// as the empty string.
pub fn format_block(data: &Vec<u8>, offset: usize) -> (r: String)
    ensures
        r@ == block_chars(data@, offset as int),
{
    let mut r = String::new();
    push_block(&mut r, data, offset);
    assert(Seq::<char>::empty() + block_chars(data@, offset as int) =~= block_chars(
        data@,
        offset as int,
    ));
    r
}

/// Append the hexadecimal representation of `n`.
fn push_hex_rep(s: &mut String, n: usize)
    ensures
        final(s)@ == old(s)@ + hex_rep(n as nat),
    decreases n,
{
    if n < 16 {
        s.push(hex_digit_char(n as u8));
        assert(old(s)@.push(hex_digit(n as int)) =~= old(s)@ + hex_rep(n as nat));
    } else {
        push_hex_rep(s, n / 16);
        s.push(hex_digit_char((n % 16) as u8));
        assert((old(s)@ + hex_rep(n as nat / 16)).push(hex_digit((n % 16) as int)) =~= old(s)@
            + hex_rep(n as nat));
    }
}

/// Append the line-info prefix of line `l`.
fn push_label_prefix(s: &mut String, l: usize)
    ensures
        final(s)@ == old(s)@ + label_prefix(l as nat),
{
    if l < 16 {
        s.push('0');
        s.push('0');
    } else if l < 256 {
        s.push('0');
    }
    push_hex_rep(s, l);
    s.push(' ');
    s.push(' ');
    s.push(' ');
    assert(final(s)@ =~= old(s)@ + label_prefix(l as nat));
}

/// How many 4-byte blocks fit on one line of the given width.
pub fn blocks_per_line(width: u16) -> (r: usize)
    ensures
        r == blocks_per_line_spec(width),
{
    if width < 6 {
        0
    } else {
        ((width - 6) / 9) as usize
    }
}

/// Render an opaque byte buffer as a fixed-width textual grid: each line
/// carries a zero-padded three-digit hexadecimal line counter, a gap, and
/// up to `blocks_per_line(width)` blocks of up to 4 bytes, two digits per
/// byte, one separator column per block. Lines are emitted until every byte
/// is covered: `ceil(len / (4 * blocks_per_line))` lines, none for an empty
/// buffer. Widths too narrow for a single block render nothing. A pure
/// function of the buffer and the width.
pub fn hex_data_string(data: &Vec<u8>, width: u16) -> (r: String)
    requires
        data@.len() + 4 * blocks_per_line_spec(width) <= usize::MAX,
    ensures
        r@ == hex_text(data@, width),
{
    let mut r = String::new();
    let bpl = blocks_per_line(width);
    if bpl == 0 {
        return r;
    }
    let ghost q: int = 4 * bpl as int;
    let mut offset: usize = 0;
    let mut lines: usize = 0;
    while offset < data.len()
        invariant
            1 <= bpl,
            bpl == blocks_per_line_spec(width),
            q == 4 * bpl as int,
            data@.len() + 4 * bpl <= usize::MAX,
            offset == lines as int * q,
            lines > 0 ==> (lines - 1) * q < data@.len(),
            r@ == hex_text_upto(data@, bpl as nat, lines as nat),
        decreases data@.len() + q - offset,
    {
        let ghost line_start = offset as int;
        let ghost r_entry = r@;
        push_label_prefix(&mut r, lines);
        let mut b: usize = 0;
        while b < bpl
            invariant
                1 <= bpl,
                q == 4 * bpl as int,
                data@.len() + 4 * bpl <= usize::MAX,
                line_start < data@.len(),
                b <= bpl,
                offset == line_start + 4 * b,
                r@ == r_entry + label_prefix(lines as nat) + blocks_render(
                    data@,
                    line_start,
                    b as nat,
                ),
            decreases bpl - b,
        {
            push_block(&mut r, data, offset);
            r.push(' ');
            assert(r@ =~= r_entry + label_prefix(lines as nat) + blocks_render(
                data@,
                line_start,
                (b + 1) as nat,
            ));
            offset = offset + 4;
            b = b + 1;
        }
        r.push('\n');
        proof {
            assert(r@ =~= r_entry + hex_line(data@, bpl as nat, lines as nat));
            assert(r@ =~= hex_text_upto(data@, bpl as nat, (lines + 1) as nat));
            assert((lines as int + 1) * q == lines as int * q + q) by (nonlinear_arith);
            assert(lines as int <= lines as int * q) by (nonlinear_arith)
                requires
                    q >= 4,
                    lines as int >= 0,
            ;
        }
        lines = lines + 1;
    }
    proof {
        if lines == 0 {
            assert(data@.len() == 0);
            assert(line_count(data@.len(), bpl as nat) == 0) by {
                lemma_fundamental_div_mod_converse(q - 1, q, 0, q - 1);
            }
        } else {
            // The loop stopped with (lines - 1) * q < len <= lines * q, so
            // lines is exactly the ceiling of len / q.
            assert((lines as int - 1) * q == lines as int * q - q) by (nonlinear_arith);
            lemma_fundamental_div_mod_converse(
                data@.len() + q - 1,
                q,
                lines as int,
                data@.len() + q - 1 - lines as int * q,
            );
        }
        assert(lines as nat == line_count(data@.len(), bpl as nat));
    }
    r
}

} // verus!
