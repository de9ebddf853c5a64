use vstd::prelude::*;

verus! {

/// The digits used to write a byte, most significant nibble first.
pub open spec fn hex_digits() -> Seq<char> {
    seq!['0', '1', '2', '3', '4', '5', '6', '7', '8', '9', 'A', 'B', 'C', 'D', 'E', 'F']
}

/// An uppercase hexadecimal digit.
pub open spec fn is_upper_hex(c: char) -> bool {
    ('0' <= c && c <= '9') || ('A' <= c && c <= 'F')
}

/// Bytes written in the given order as two uppercase hex digits each,
/// separated by colons.
pub open spec fn colon_hex(bytes: Seq<u8>) -> Seq<char> {
    if bytes.len() == 0 {
        Seq::empty()
    } else {
        Seq::new(
            (3 * bytes.len() - 1) as nat,
            |i: int|
                if i % 3 == 2 {
                    ':'
                } else if i % 3 == 0 {
                    hex_digits()[bytes[i / 3] as int / 16]
                } else {
                    hex_digits()[bytes[i / 3] as int % 16]
                },
        )
    }
}

/// The text of an address stored least significant byte first: the most
/// significant byte is written first.
pub open spec fn address_text(raw: Seq<u8>) -> Seq<char> {
    colon_hex(raw.reverse())
}

/// The value of a hardware address stored least significant byte first.
pub open spec fn address_value(raw: Seq<u8>) -> int {
    raw[0] + 256 * (raw[1] + 256 * (raw[2] + 256 * (raw[3] + 256 * (raw[4] + 256 * raw[5] as int))))
}


/// Every digit of the table is an uppercase hex digit.
proof fn lemma_hex_digit(n: int)
    requires
        0 <= n < 16,
    ensures
        is_upper_hex(hex_digits()[n]),
{
}

/// The text of a six-byte address has 17 characters in the shape
/// `XX:XX:XX:XX:XX:XX` with uppercase hex digits, writes the last stored byte
/// first, and is what the forward formatter writes for the reversed bytes; so
/// the text of the reversed bytes is the forward text of the bytes.
pub proof fn lemma_address_text(raw: Seq<u8>)
    requires
        raw.len() == 6,
    ensures
        address_text(raw).len() == 17,
        forall|i: int| 0 <= i < 17 && i % 3 == 2 ==> address_text(raw)[i] == ':',
        forall|i: int| 0 <= i < 17 && i % 3 != 2 ==> is_upper_hex(address_text(raw)[i]),
        forall|k: int|
            0 <= k < 6 ==> #[trigger] address_text(raw)[3 * k] == hex_digits()[raw[5 - k] as int / 16]
                && address_text(raw)[3 * k + 1] == hex_digits()[raw[5 - k] as int % 16],
        address_text(raw) == colon_hex(raw.reverse()),
        address_text(raw.reverse()) == colon_hex(raw),
{
    let t = address_text(raw);
    assert forall|i: int| 0 <= i < 17 && i % 3 != 2 implies is_upper_hex(t[i]) by {
        let b = raw.reverse()[i / 3];
        if i % 3 == 0 {
            lemma_hex_digit(b as int / 16);
        } else {
            lemma_hex_digit(b as int % 16);
        }
    }
    assert forall|k: int| 0 <= k < 6 implies #[trigger] t[3 * k] == hex_digits()[raw[5 - k] as int / 16]
        && t[3 * k + 1] == hex_digits()[raw[5 - k] as int % 16] by {
        assert((3 * k) / 3 == k && (3 * k) % 3 == 0);
        assert((3 * k + 1) / 3 == k && (3 * k + 1) % 3 == 1);
    }
    assert(raw.reverse().reverse() =~= raw);
}

/// What discovery reports of one peripheral.
pub struct DeviceInfo {
    /// The name the device announces.
    pub name: String,
    /// The hardware address, least significant byte first.
    pub address: [u8; 6],
    /// Whether the device is connected at the moment of discovery.
    pub connected: bool,
}

/// A hardware address together with its text.
pub struct BtAddress {
    pub raw: [u8; 6],
    pub str: String,
}

/// The record shown for one device and used to connect to it.
pub struct DeviceData {
    pub name: String,
    pub address: BtAddress,
}

/// Appends the two hex digits of one byte, high nibble first.
fn push_byte(s: &mut String, b: u8)
    ensures
        final(s)@ == old(s)@ + seq![hex_digits()[b as int / 16], hex_digits()[b as int % 16]],
{
    let digits = "0123456789ABCDEF";
    proof {
        reveal_strlit("0123456789ABCDEF");
        assert(digits@ =~= hex_digits());
    }
    let hi = (b / 16) as usize;
    let lo = (b % 16) as usize;
    s.append(digits.substring_ascii(hi, hi + 1));
    s.append(digits.substring_ascii(lo, lo + 1));
}

/// Writes six bytes in the order given.
fn format_forward(bytes: &[u8; 6]) -> (r: String)
    ensures
        r@ == colon_hex(bytes@),
{
    let mut s = String::new();
    let mut k: usize = 0;
    while k < 6
        invariant
            k <= 6,
            bytes@.len() == 6,
            s@.len() == if k == 0 { 0 } else { 3 * k - 1 },
            forall|i: int| 0 <= i < s@.len() ==> s@[i] == colon_hex(bytes@)[i],
        decreases 6 - k,
    {
        let ghost prev = s@;
        if k > 0 {
            s.append(":");
            proof {
                reveal_strlit(":");
            }
        }
        let ghost mid = s@;
        push_byte(&mut s, bytes[k]);
        assert forall|i: int| 0 <= i < s@.len() implies s@[i] == colon_hex(bytes@)[i] by {
            if i >= mid.len() {
                assert(i / 3 == k as int && i % 3 != 2) by (nonlinear_arith)
                    requires
                        3 * k <= i < 3 * k + 2,
                ;
            } else if i >= prev.len() {
                assert(i % 3 == 2) by (nonlinear_arith)
                    requires
                        i == 3 * k - 1,
                        k > 0,
                ;
            }
        }
        k = k + 1;
    }
    assert(s@ =~= colon_hex(bytes@));
    s
}

impl BtAddress {
    /// The address of a discovered device.
    pub fn new(device: &DeviceInfo) -> (r: Self)
        ensures
            r.raw == device.address,
            r.str@ == address_text(device.address@),
    {
        BtAddress { raw: device.address, str: Self::bt_addr_to_string(&device.address) }
    }

    /// The address as text such as `00:1A:2B:3C:4D:5E`, most significant
    /// byte first.
    pub fn bt_addr_to_string(bt_addr: &[u8; 6]) -> (r: String)
        ensures
            r@ == address_text(bt_addr@),
    {
        let mut reversed: [u8; 6] = [0u8; 6];
        let mut k: usize = 0;
        while k < 6
            invariant
                k <= 6,
                bt_addr@.len() == 6,
                reversed@.len() == 6,
                forall|i: int| 0 <= i < k ==> reversed@[i] == bt_addr@[5 - i],
            decreases 6 - k,
        {
            reversed[k] = bt_addr[5 - k];
            k = k + 1;
        }
        assert(reversed@ =~= bt_addr@.reverse());
        format_forward(&reversed)
    }

    /// The numeric value of the address.
    pub fn value(&self) -> (r: u64)
        ensures
            r == address_value(self.raw@),
    {
        let b0 = self.raw[0] as u64;
        let b1 = self.raw[1] as u64;
        let b2 = self.raw[2] as u64;
        let b3 = self.raw[3] as u64;
        let b4 = self.raw[4] as u64;
        let b5 = self.raw[5] as u64;
        assert(b4 + 256 * b5 < 0x1_0000) by (nonlinear_arith)
            requires
                b4 < 256,
                b5 < 256,
        ;
        let v4 = b4 + 256 * b5;
        assert(b3 + 256 * v4 < 0x100_0000) by (nonlinear_arith)
            requires
                b3 < 256,
                v4 < 0x1_0000,
        ;
        let v3 = b3 + 256 * v4;
        assert(b2 + 256 * v3 < 0x1_0000_0000) by (nonlinear_arith)
            requires
                b2 < 256,
                v3 < 0x100_0000,
        ;
        let v2 = b2 + 256 * v3;
        assert(b1 + 256 * v2 < 0x100_0000_0000) by (nonlinear_arith)
            requires
                b1 < 256,
                v2 < 0x1_0000_0000,
        ;
        let v1 = b1 + 256 * v2;
        assert(b0 + 256 * v1 < 0x1_0000_0000_0000) by (nonlinear_arith)
            requires
                b0 < 256,
                v1 < 0x100_0000_0000,
        ;
        b0 + 256 * v1
    }
}

impl DeviceData {
    /// The record of a discovered device: its name and its address.
    pub fn from_device(device: &DeviceInfo) -> (r: Self)
        ensures
            r.name@ == device.name@,
            r.address.raw == device.address,
            r.address.str@ == address_text(device.address@),
    {
        DeviceData { name: device.name.clone(), address: BtAddress::new(device) }
    }
}

} // verus!
