//! The guest kernel command line, on which memory-mapped devices are announced.

use vstd::prelude::*;

use crate::devices::virtio::net::test_utils::decimal_digits;

verus! {

#[verifier::external_type_specification]
#[verifier::external_body]
pub struct ExCmdline(linux_loader::cmdline::Cmdline);

#[verifier::external_type_specification]
#[verifier::external_body]
pub struct ExCmdlineError(linux_loader::cmdline::Error);

/// The boot arguments that a command line holds.
pub uninterp spec fn cmdline_boot_args(cmdline: linux_loader::cmdline::Cmdline) -> Seq<char>;

/// The arguments for the init process that a command line holds.
pub uninterp spec fn cmdline_init_args(cmdline: linux_loader::cmdline::Cmdline) -> Seq<char>;

/// The number of bytes that a command line was made for, its terminator included.
pub uninterp spec fn cmdline_capacity(cmdline: linux_loader::cmdline::Cmdline) -> nat;

/// The number of bytes that the character `c` takes in a string.
pub open spec fn char_bytes(c: char) -> nat {
    if (c as u32) < 0x80 {
        1
    } else if (c as u32) < 0x800 {
        2
    } else if (c as u32) < 0x1_0000 {
        3
    } else {
        4
    }
}

/// The number of bytes that the characters `s` take in a string.
pub open spec fn text_bytes(s: Seq<char>) -> nat
    decreases s.len(),
{
    if s.len() == 0 {
        0
    } else {
        text_bytes(s.drop_last()) + char_bytes(s.last())
    }
}

/// The number of bytes that a command line takes, its terminator included: the boot
/// arguments, and behind ` -- ` the arguments for the init process, if there are any.
pub open spec fn cmdline_size(cmdline: linux_loader::cmdline::Cmdline) -> nat {
    text_bytes(cmdline_boot_args(cmdline)) + 1 + if cmdline_init_args(cmdline).len() > 0 {
        4 + text_bytes(cmdline_init_args(cmdline))
    } else {
        0
    }
}

/// Whether a command line has room for one more boot argument of `len` bytes, with the
/// space that parts it from the boot arguments that are there.
pub open spec fn cmdline_has_room(cmdline: linux_loader::cmdline::Cmdline, len: nat) -> bool {
    cmdline_size(cmdline) + (if cmdline_boot_args(cmdline).len() > 0 {
        1nat
    } else {
        0nat
    }) + len <= cmdline_capacity(cmdline)
}

/// How a size is written in the argument for a device: in units of 2^30, 2^20 or 2^10
/// bytes with the letter `G`, `M` or `K`, in the largest unit that divides it, and as a
/// plain number where none does.
pub open spec fn size_text(size: u64) -> Seq<char> {
    if size % 0x4000_0000 == 0 {
        decimal_digits((size / 0x4000_0000) as nat).push('G')
    } else if size % 0x10_0000 == 0 {
        decimal_digits((size / 0x10_0000) as nat).push('M')
    } else if size % 0x400 == 0 {
        decimal_digits((size / 0x400) as nat).push('K')
    } else {
        decimal_digits(size as nat)
    }
}

/// The argument that announces a memory-mapped virtio device of `size` bytes at
/// `baseaddr` with the interrupt line `irq`: `virtio_mmio.device=`, the size, `@0x`, the
/// address in hexadecimal digits, a colon and the line in decimal digits.
pub open spec fn virtio_mmio_hint(size: u64, baseaddr: u64, irq: u32) -> Seq<char> {
    "virtio_mmio.device="@ + size_text(size) + "@0x"@ + hex_digits(baseaddr as nat, 1)
        + seq![':'] + decimal_digits(irq as nat)
}

/// The boot arguments `args` with `arg` added behind them.
pub open spec fn boot_args_with(args: Seq<char>, arg: Seq<char>) -> Seq<char> {
    if args.len() == 0 {
        arg
    } else {
        args + seq![' '] + arg
    }
}

/// `linux_loader::cmdline::Cmdline::add_virtio_mmio_device`, without a device id: adds
/// the argument for the device behind the boot arguments, separated by one space from what
/// was there. It fails exactly when `size` is zero or the command line has no room for the
/// argument; a failed call changes nothing.
#[verifier::external_body]
pub(crate) fn add_virtio_mmio_device(
    cmdline: &mut linux_loader::cmdline::Cmdline,
    size: u64,
    baseaddr: u64,
    irq: u32,
) -> (r: Result<(), linux_loader::cmdline::Error>)
    ensures
        r is Ok <==> size != 0 && cmdline_has_room(
            *old(cmdline),
            virtio_mmio_hint(size, baseaddr, irq).len(),
        ),
        cmdline_boot_args(*final(cmdline)) == (if r is Ok {
            boot_args_with(cmdline_boot_args(*old(cmdline)), virtio_mmio_hint(size, baseaddr, irq))
        } else {
            cmdline_boot_args(*old(cmdline))
        }) && cmdline_init_args(*final(cmdline)) == cmdline_init_args(*old(cmdline))
            && cmdline_capacity(*final(cmdline)) == cmdline_capacity(*old(cmdline)),
{
    cmdline.add_virtio_mmio_device(size, vm_memory::GuestAddress(baseaddr), irq, None)
}

/// The whole command line as it is handed to the kernel: the boot arguments, and behind
/// ` -- ` the arguments for the init process, if there are any. There is none where
/// arguments for the init process stand without boot arguments, or where it would hold
/// the character that ends a string.
pub open spec fn cmdline_line(cmdline: linux_loader::cmdline::Cmdline) -> Option<Seq<char>> {
    let boot = cmdline_boot_args(cmdline);
    let init = cmdline_init_args(cmdline);
    let line = if init.len() == 0 {
        boot
    } else {
        boot + seq![' ', '-', '-', ' '] + init
    };
    if (boot.len() == 0 && init.len() > 0) || line.contains('\0') {
        None
    } else {
        Some(line)
    }
}

/// The characters of `r`.
pub open spec fn text_of(r: Option<String>) -> Option<Seq<char>> {
    match r {
        Some(line) => Some(line@),
        None => None,
    }
}

/// `linux_loader::cmdline::Cmdline::as_cstring`, as a string: the whole command line, if
/// there is one.
#[verifier::external_body]
pub(crate) fn cmdline_as_string(cmdline: &linux_loader::cmdline::Cmdline) -> (r: Option<String>)
    ensures
        text_of(r) == cmdline_line(*cmdline),
{
    cmdline.as_cstring().ok().and_then(|line| line.into_string().ok())
}

/// Whether every character of `s` is a printable ASCII character.
pub open spec fn valid_text(s: Seq<char>) -> bool {
    forall|i: int| 0 <= i < s.len() ==> 0x20 <= (#[trigger] s[i]) as u32 <= 0x7e
}

/// Whether `s` can be the key of an argument: printable, without a space or an equals
/// sign.
pub open spec fn valid_key(s: Seq<char>) -> bool {
    &&& valid_text(s)
    &&& !s.contains(' ')
    &&& !s.contains('=')
}

/// Whether `s` can be the value of an argument: printable, with no double quote but at
/// its two ends, and between double quotes if it holds a space.
pub open spec fn valid_value(s: Seq<char>) -> bool {
    &&& valid_text(s)
    &&& forall|i: int| 1 <= i < s.len() - 1 ==> #[trigger] s[i] != '\u{22}'
    &&& s.contains(' ') ==> s.len() >= 2 && s[0] == '\u{22}' && s.last() == '\u{22}'
}

/// Whether a command line takes the argument `key=value`: key and value are valid, and
/// there is room for the argument.
pub open spec fn insert_taken(cmdline: linux_loader::cmdline::Cmdline, key: Seq<char>, value: Seq<char>) -> bool {
    &&& valid_key(key)
    &&& valid_value(value)
    &&& cmdline_has_room(cmdline, key_value(key, value).len())
}

/// `linux_loader::cmdline::Cmdline::insert`: adds the argument `key=value` behind the boot
/// arguments, separated by one space from what was there. It fails exactly when the key or
/// the value is not valid or the command line has no room for the argument; a failed call
/// changes nothing.
#[verifier::external_body]
pub(crate) fn cmdline_insert(cmdline: &mut linux_loader::cmdline::Cmdline, key: &str, value: &str) -> (r:
    Result<(), linux_loader::cmdline::Error>)
    ensures
        r is Ok <==> insert_taken(*old(cmdline), key@, value@),
        cmdline_boot_args(*final(cmdline)) == (if r is Ok {
            boot_args_with(cmdline_boot_args(*old(cmdline)), key_value(key@, value@))
        } else {
            cmdline_boot_args(*old(cmdline))
        }) && cmdline_init_args(*final(cmdline)) == cmdline_init_args(*old(cmdline))
            && cmdline_capacity(*final(cmdline)) == cmdline_capacity(*old(cmdline)),
{
    cmdline.insert(key, value)
}

/// The argument `key=value`.
pub open spec fn key_value(key: Seq<char>, value: Seq<char>) -> Seq<char> {
    key + seq!['='] + value
}

/// Whether `needle` occurs in `hay` at `at`.
pub open spec fn occurs_at(hay: Seq<char>, needle: Seq<char>, at: int) -> bool {
    0 <= at && at + needle.len() <= hay.len() && hay.subrange(at, at + needle.len()) == needle
}

/// Whether `needle` occurs in `hay`.
pub open spec fn occurs(hay: Seq<char>, needle: Seq<char>) -> bool {
    exists|at: int| occurs_at(hay, needle, at)
}

/// Tells whether `needle` occurs in `hay` at `at`.
fn found_at(hay: &str, needle: &str, at: usize) -> (r: bool)
    requires
        at + needle@.len() <= hay@.len(),
    ensures
        r == occurs_at(hay@, needle@, at as int),
{
    let n = needle.unicode_len();
    let h = hay.unicode_len();
    let mut k: usize = 0;
    while k < n
        invariant
            0 <= k <= n,
            n == needle@.len(),
            h == hay@.len(),
            at + n <= hay@.len(),
            forall|j: int| 0 <= j < k ==> hay@[at + j] == needle@[j],
        decreases n - k,
    {
        if hay.get_char(at + k) != needle.get_char(k) {
            proof {
                assert(hay@.subrange(at as int, at + n)[k as int] == hay@[at + k]);
            }
            return false;
        }
        k += 1;
    }
    proof {
        assert(hay@.subrange(at as int, at + n) =~= needle@);
    }
    true
}

/// Tells whether `needle` occurs in `hay`.
pub fn contains(hay: &str, needle: &str) -> (r: bool)
    ensures
        r == occurs(hay@, needle@),
{
    let h = hay.unicode_len();
    let n = needle.unicode_len();
    if n > h {
        return false;
    }
    if n == 0 {
        assert(occurs_at(hay@, needle@, 0)) by {
            assert(hay@.subrange(0, 0) =~= needle@);
        }
        return true;
    }
    let places = h - n + 1;
    let mut at: usize = 0;
    while at < places
        invariant
            0 <= at <= places,
            places == h - n + 1,
            h == hay@.len(),
            n == needle@.len(),
            n <= h,
            forall|j: int| 0 <= j < at ==> !occurs_at(hay@, needle@, j),
        decreases places - at,
    {
        if found_at(hay, needle, at) {
            return true;
        }
        at += 1;
    }
    false
}

/// The hexadecimal digits of `n`, most significant first, at least `width` of them.
pub open spec fn hex_digits(n: nat, width: nat) -> Seq<char>
    decreases n, width,
{
    if n < 16 && width <= 1 {
        seq![hex_char(n)]
    } else {
        hex_digits(
            n / 16,
            if width > 0 {
                (width - 1) as nat
            } else {
                0
            },
        ).push(hex_char(n % 16))
    }
}

/// The character of the hexadecimal digit `d`.
pub open spec fn hex_char(d: nat) -> char {
    if d < 10 {
        crate::devices::virtio::net::test_utils::digit_char(d)
    } else if d == 10 {
        'a'
    } else if d == 11 {
        'b'
    } else if d == 12 {
        'c'
    } else if d == 13 {
        'd'
    } else if d == 14 {
        'e'
    } else {
        'f'
    }
}

/// Whether `c` is a digit or one of the letters `a` to `f`.
pub open spec fn hex_letter(c: char) -> bool {
    ('0' as u32 <= c as u32 <= '9' as u32) || ('a' as u32 <= c as u32 <= 'f' as u32)
}

/// Hexadecimal digits are digits and the letters `a` to `f`.
pub proof fn lemma_hex_digits_are_letters(n: nat, width: nat)
    ensures
        forall|i: int|
            0 <= i < hex_digits(n, width).len() ==> hex_letter(#[trigger] hex_digits(n, width)[i]),
    decreases n, width,
{
    let last = hex_char(n % 16);
    assert(hex_letter(last)) by {
        let d = n % 16;
        if d < 10 {
            assert(last == crate::devices::virtio::net::test_utils::digit_char(d));
            assert('0' as u32 <= last as u32 <= '9' as u32);
        }
    }
    if n < 16 && width <= 1 {
        assert(hex_digits(n, width) =~= seq![last]);
    } else {
        let less = if width > 0 {
            (width - 1) as nat
        } else {
            0
        };
        lemma_hex_digits_are_letters(n / 16, less);
        let front = hex_digits(n / 16, less);
        assert(hex_digits(n, width) =~= front.push(last));
        assert forall|i: int| 0 <= i < hex_digits(n, width).len() implies hex_letter(
            #[trigger] hex_digits(n, width)[i],
        ) by {
            if i < front.len() {
                assert(hex_digits(n, width)[i] == front[i]);
            }
        }
    }
}

/// The hexadecimal digit `d` as a string.
fn hex_digit(d: u64) -> (r: &'static str)
    requires
        d < 16,
    ensures
        r@ == seq![hex_char(d as nat)],
{
    proof {
        reveal_strlit("0");
        reveal_strlit("1");
        reveal_strlit("2");
        reveal_strlit("3");
        reveal_strlit("4");
        reveal_strlit("5");
        reveal_strlit("6");
        reveal_strlit("7");
        reveal_strlit("8");
        reveal_strlit("9");
        reveal_strlit("a");
        reveal_strlit("b");
        reveal_strlit("c");
        reveal_strlit("d");
        reveal_strlit("e");
        reveal_strlit("f");
    }
    let r = if d == 0 {
        "0"
    } else if d == 1 {
        "1"
    } else if d == 2 {
        "2"
    } else if d == 3 {
        "3"
    } else if d == 4 {
        "4"
    } else if d == 5 {
        "5"
    } else if d == 6 {
        "6"
    } else if d == 7 {
        "7"
    } else if d == 8 {
        "8"
    } else if d == 9 {
        "9"
    } else if d == 10 {
        "a"
    } else if d == 11 {
        "b"
    } else if d == 12 {
        "c"
    } else if d == 13 {
        "d"
    } else if d == 14 {
        "e"
    } else {
        "f"
    };
    proof {
        assert(r@ =~= seq![hex_char(d as nat)]);
    }
    r
}

/// Appends the hexadecimal digits of `n`, at least `width` of them, to `text`.
pub fn push_hex(text: &mut String, n: u64, width: u8)
    ensures
        final(text)@ == old(text)@ + hex_digits(n as nat, width as nat),
    decreases n, width,
{
    if n >= 16 || width > 1 {
        push_hex(
            text,
            n / 16,
            if width > 0 {
                (width - 1) as u8
            } else {
                0
            },
        );
    }
    text.append(hex_digit(n % 16));
    proof {
        assert(text@ =~= old(text)@ + hex_digits(n as nat, width as nat));
    }
}

} // verus!
