//! What the library needs to know of the system it runs on: the version of
//! the kernel, read from its release string, and the size of a memory page.

use crate::netlink::text;
use crate::sys;
use vstd::prelude::*;

verus! {

/// The byte that separates the numbers of a release string.
pub const DOT: u8 = 46;

/// Where `b` first occurs in `s`, or the length of `s` where it does not.
pub open spec fn find(s: Seq<u8>, b: u8) -> int
    decreases s.len(),
{
    if s.len() == 0 {
        0
    } else if s[0] == b {
        0
    } else {
        1 + find(s.drop_first(), b)
    }
}

/// Whether a byte is a decimal digit.
pub open spec fn is_digit(b: u8) -> bool {
    48 <= b <= 57
}

/// The number that a run of decimal digits spells.
pub open spec fn decimal(s: Seq<u8>) -> nat
    decreases s.len(),
{
    if s.len() == 0 {
        0
    } else {
        decimal(s.drop_last()) * 10 + (s.last() - 48) as nat
    }
}

/// The number that a piece of text spells as a `u32`: decimal digits, at least
/// one, with or without a plus sign in front; nothing else, and no number
/// beyond the largest `u32`.
pub open spec fn number(s: Seq<u8>) -> Option<u32> {
    let digits = unsigned_part(s);
    if digits.len() > 0 && all_digits(digits) && decimal(digits) <= u32::MAX {
        Some(decimal(digits) as u32)
    } else {
        None
    }
}

/// A piece of text without the plus sign in front of it, if there is one.
pub open spec fn unsigned_part(s: Seq<u8>) -> Seq<u8> {
    if s.len() > 0 && s[0] == 43 {
        s.drop_first()
    } else {
        s
    }
}

/// Whether every byte is a decimal digit.
pub open spec fn all_digits(s: Seq<u8>) -> bool {
    forall|i: int| 0 <= i < s.len() ==> is_digit(#[trigger] s[i])
}

/// The first two numbers of a release string such as `6.6.9-foo-1`: what
/// stands before the first dot, and what stands between the first and the
/// second. There is no version where a dot or a number is missing.
pub open spec fn kernel_version(release: Seq<u8>) -> Option<(u32, u32)> {
    let first = find(release, DOT);
    if first >= release.len() {
        None
    } else {
        let rest = release.subrange(first + 1, release.len() as int);
        let second = find(rest, DOT);
        if second >= rest.len() {
            None
        } else {
            match (number(release.subrange(0, first)), number(rest.subrange(0, second))) {
                (Some(major), Some(minor)) => Some((major, minor)),
                _ => None,
            }
        }
    }
}

/// Whether the kernel acknowledges the messages that open and close a batch.
/// Kernels from 6.10 on do. A kernel of unknown version is taken to do so.
pub open spec fn acknowledges_frames(version: Option<(u32, u32)>) -> bool {
    match version {
        Some((major, minor)) => major > 6 || (major == 6 && minor >= 10),
        None => true,
    }
}

/// A byte that occurs at `i` and nowhere before is first found at `i`; one
/// that does not occur at all is found at the end.
pub proof fn lemma_find(s: Seq<u8>, b: u8, i: int)
    requires
        0 <= i <= s.len(),
        forall|k: int| 0 <= k < i ==> s[k] != b,
        i < s.len() ==> s[i] == b,
    ensures
        find(s, b) == i,
    decreases s.len(),
{
    if s.len() > 0 && s[0] != b {
        assert forall|k: int| 0 <= k < i - 1 implies s.drop_first()[k] != b by {
            assert(s.drop_first()[k] == s[k + 1]);
        }
        lemma_find(s.drop_first(), b, i - 1);
    }
}

/// Where `b` first occurs in `s` at or behind `from`, or the length of `s`
/// where it does not.
fn find_from(s: &[u8], from: usize, b: u8) -> (r: usize)
    requires
        from <= s@.len(),
    ensures
        from <= r <= s@.len(),
        r - from == find(s@.subrange(from as int, s@.len() as int), b),
{
    let ghost tail = s@.subrange(from as int, s@.len() as int);
    let mut i: usize = from;
    while i < s.len() && s[i] != b
        invariant
            from <= i <= s@.len(),
            tail == s@.subrange(from as int, s@.len() as int),
            forall|k: int| 0 <= k < i - from ==> tail[k] != b,
        decreases s@.len() - i,
    {
        i += 1;
    }
    proof {
        lemma_find(tail, b, i - from);
    }
    i
}

/// Reads the digits of `s` from `from` up to `to` as a `u32`.
fn parse_number(s: &[u8], from: usize, to: usize) -> (r: Option<u32>)
    requires
        from <= to <= s@.len(),
    ensures
        r == number(s@.subrange(from as int, to as int)),
{
    let ghost whole = s@.subrange(from as int, to as int);
    let start: usize = if from < to && s[from] == 43 {
        from + 1
    } else {
        from
    };
    let ghost digits = s@.subrange(start as int, to as int);
    assert(digits =~= unsigned_part(whole));
    if start == to {
        return None;
    }
    let mut value: u64 = 0;
    let mut i: usize = start;
    while i < to
        invariant
            start <= i <= to <= s@.len(),
            digits == s@.subrange(start as int, to as int),
            whole == s@.subrange(from as int, to as int),
            digits.len() > 0,
            digits == unsigned_part(whole),
            from <= start,
            forall|k: int| 0 <= k < i - start ==> is_digit(#[trigger] digits[k]),
            value == decimal(digits.subrange(0, i - start)),
            value <= u32::MAX,
        decreases to - i,
    {
        let b = s[i];
        assert(digits[i - start] == b);
        if b < 48 || b > 57 {
            assert(!is_digit(digits[i - start]));
            return None;
        }
        let next: u64 = value * 10 + (b - 48) as u64;
        proof {
            let upto = digits.subrange(0, i + 1 - start);
            assert(upto.drop_last() =~= digits.subrange(0, i - start));
            assert(upto.last() == b);
            assert(next == decimal(upto));
            if next > u32::MAX {
                lemma_decimal_grows(digits, i + 1 - start);
            }
        }
        if next > 0xffff_ffff {
            return None;
        }
        value = next;
        i += 1;
    }
    assert(digits.subrange(0, i - start) =~= digits);
    Some(value as u32)
}

/// The number that the first digits of a run spell is no larger than the
/// number that all of them spell.
proof fn lemma_decimal_grows(s: Seq<u8>, n: int)
    requires
        0 <= n <= s.len(),
        forall|k: int| 0 <= k < n ==> is_digit(#[trigger] s[k]),
    ensures
        all_digits(s) ==> decimal(s.subrange(0, n)) <= decimal(s),
    decreases s.len() - n,
{
    if all_digits(s) {
        if n < s.len() {
            let longer = s.subrange(0, n + 1);
            assert(longer.drop_last() =~= s.subrange(0, n));
            assert(longer.last() == s[n]);
            assert(is_digit(s[n]));
            lemma_decimal_grows(s, n + 1);
        } else {
            assert(s.subrange(0, n) =~= s);
        }
    }
}

/// The first two numbers of the release string of a kernel.
pub fn parse_kernel_version(release: &str) -> (r: Option<(u32, u32)>)
    ensures
        r == kernel_version(text(release@)),
{
    let bytes = release.as_bytes();
    let first = find_from(bytes, 0, DOT);
    assert(bytes@.subrange(0, bytes@.len() as int) =~= bytes@);
    if first >= bytes.len() {
        return None;
    }
    let second = find_from(bytes, first + 1, DOT);
    let ghost rest = bytes@.subrange(first + 1, bytes@.len() as int);
    if second >= bytes.len() {
        return None;
    }
    assert(rest.subrange(0, second - (first + 1)) =~= bytes@.subrange(first + 1, second as int));
    let major = parse_number(bytes, 0, first);
    let minor = parse_number(bytes, first + 1, second);
    match (major, minor) {
        (Some(major), Some(minor)) => Some((major, minor)),
        _ => None,
    }
}

/// Whether a kernel of the given version acknowledges the messages that open
/// and close a batch.
pub fn acks_batch_frames(version: Option<(u32, u32)>) -> (r: bool)
    ensures
        r == acknowledges_frames(version),
{
    match version {
        Some((major, minor)) => major > 6 || (major == 6 && minor >= 10),
        None => true,
    }
}

/// The version that an answer of the system to the question for its release
/// stands for: that of the release string, and none where the system gave no
/// release string.
pub open spec fn release_version(release: Option<Seq<char>>) -> Option<(u32, u32)> {
    match release {
        Some(chars) => kernel_version(text(chars)),
        None => None,
    }
}

/// What a release string that may be missing is in contracts: its characters.
pub open spec fn release_chars(release: Option<String>) -> Option<Seq<char>> {
    match release {
        Some(s) => Some(s@),
        None => None,
    }
}

/// The version of the kernel whose release string the system gave, or did
/// not give.
pub fn kernel_version_from(release: &Option<String>) -> (r: Option<(u32, u32)>)
    ensures
        r == release_version(release_chars(*release)),
{
    match release {
        Some(release) => parse_kernel_version(release.as_str()),
        None => None,
    }
}

/// Whether the kernel whose release string the system gave, or did not give,
/// acknowledges the messages that open and close a batch. It is taken to do
/// so where there is no release string, or none with a version in it.
pub fn acks_for_release(release: &Option<String>) -> (r: bool)
    ensures
        r == acknowledges_frames(release_version(release_chars(*release))),
{
    acks_batch_frames(kernel_version_from(release))
}

/// The version of the running kernel, if its release string can be had and
/// read. The system is asked for the string; [`kernel_version_from`] says
/// what is made of its answer.
pub fn running_kernel_version() -> (r: Option<(u32, u32)>) {
    kernel_version_from(&sys::kernel_release())
}

/// Whether the running kernel acknowledges the messages that open and close a
/// batch, as far as its version tells. The system is asked for its release
/// string; [`acks_for_release`] says what is made of its answer.
pub fn ack_batch_end_messages() -> (r: bool) {
    acks_for_release(&sys::kernel_release())
}

/// The size of the largest message when a memory page has `page_size` bytes:
/// the list of elements of a set may fill an attribute to its limit, and the
/// rest of the message has room in one page. `None` where that is no `u32`.
pub open spec fn max_message_size(page_size: u32) -> Option<u32> {
    if page_size as int + 0xffff <= u32::MAX {
        Some((page_size + 0xffff) as u32)
    } else {
        None
    }
}

/// The size of the pages of a batch when a memory page has `page_size`
/// bytes: thirty-two times as much, which holds a ruleset of half a million
/// rules. `None` where that is no `u32`.
pub open spec fn batch_page_size(page_size: u32) -> Option<u32> {
    if page_size as int * 32 <= u32::MAX {
        Some((page_size * 32) as u32)
    } else {
        None
    }
}

/// The size of the largest message when a memory page has `page_size` bytes.
pub fn max_message_size_for(page_size: u32) -> (r: Option<u32>)
    ensures
        r == max_message_size(page_size),
{
    page_size.checked_add(0xffff)
}

/// The size of the pages of a batch when a memory page has `page_size` bytes.
pub fn batch_page_size_for(page_size: u32) -> (r: Option<u32>)
    ensures
        r == batch_page_size(page_size),
{
    page_size.checked_mul(32)
}

/// The size of a memory page that an answer of the system stands for: the
/// number that it gave, if it gave one and the number is a `u32`.
pub open spec fn page_size_of(answer: Option<i64>) -> Option<u32> {
    match answer {
        Some(size) => if 0 <= size <= u32::MAX {
            Some(size as u32)
        } else {
            None
        },
        None => None,
    }
}

/// The size of the largest message that follows from an answer of the system
/// to the question for the size of a memory page.
pub open spec fn max_message_size_of(answer: Option<i64>) -> Option<u32> {
    match page_size_of(answer) {
        Some(size) => max_message_size(size),
        None => None,
    }
}

/// The size of the pages of a batch that follows from an answer of the system
/// to the question for the size of a memory page.
pub open spec fn batch_page_size_of(answer: Option<i64>) -> Option<u32> {
    match page_size_of(answer) {
        Some(size) => batch_page_size(size),
        None => None,
    }
}

/// The size of a memory page that an answer of the system stands for.
pub fn page_size_from(answer: Option<i64>) -> (r: Option<u32>)
    ensures
        r == page_size_of(answer),
{
    match answer {
        Some(size) => if 0 <= size && size <= 0xffff_ffff {
            Some(size as u32)
        } else {
            None
        },
        None => None,
    }
}

/// The size of the largest message that follows from an answer of the system
/// to the question for the size of a memory page: 65535 bytes more than a
/// page, and none where the system gave no size or the sum is no `u32`.
pub fn max_message_size_from(answer: Option<i64>) -> (r: Option<u32>)
    ensures
        r == max_message_size_of(answer),
        r matches Some(size) ==> size >= 0xffff,
{
    match page_size_from(answer) {
        Some(size) => max_message_size_for(size),
        None => None,
    }
}

/// The size of the pages of a batch that follows from an answer of the system
/// to the question for the size of a memory page: thirty-two pages, and none
/// where the system gave no size or the product is no `u32`.
pub fn batch_page_size_from(answer: Option<i64>) -> (r: Option<u32>)
    ensures
        r == batch_page_size_of(answer),
        r matches Some(size) ==> size % 32 == 0,
{
    match page_size_from(answer) {
        Some(size) => batch_page_size_for(size),
        None => None,
    }
}

/// The size of a memory page on this system, if the system tells and it is a
/// `u32`. The system is asked; [`page_size_from`] says what is made of its
/// answer.
pub fn system_page_size() -> (r: Option<u32>) {
    page_size_from(sys::page_size())
}

} // verus!
