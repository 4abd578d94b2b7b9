//! The Raspberry Pi firmware driver: the request word handed to the mailbox, the check of the
//! firmware's reply, and the decoding of the property responses.
//!
//! See [Mailbox property interface](https://github.com/raspberrypi/firmware/wiki/Mailbox-property-interface).
use vstd::prelude::*;

use super::property::{MBOX_0_CH_8_ARM_VC_TAGS, Message, RESPONSE_CODE_SUCCESS};
use crate::drivers::DriverRegistry;
use crate::once_slot::OnceSlot;

verus! {

/// Byte `k` (0 = least significant) of the word `w`, as laid out in little-endian memory.
pub open spec fn le_byte(w: u32, k: int) -> u8 {
    ((w >> (8 * k) as u32) & 0xff) as u8
}

/// The bytes of `words` as laid out in little-endian memory.
pub open spec fn words_le_bytes(words: Seq<u32>) -> Seq<u8> {
    Seq::new(words.len() * 4, |i: int| le_byte(words[i / 4], i % 4))
}

/// `prefix` is `bytes` up to (not including) its first zero byte, or all of `bytes` if it holds
/// no zero byte.
pub open spec fn is_nul_terminated_prefix(bytes: Seq<u8>, prefix: Seq<u8>) -> bool {
    &&& prefix.len() <= bytes.len()
    &&& prefix == bytes.take(prefix.len() as int)
    &&& forall|i: int| 0 <= i < prefix.len() ==> prefix[i] != 0
    &&& prefix.len() < bytes.len() ==> bytes[prefix.len() as int] == 0
}

/// A response carries data only if the firmware answered the request with success.
pub open spec fn response_result<T>(response_code: u32, value: T) -> Result<T, ()> {
    if response_code == RESPONSE_CODE_SUCCESS {
        Ok(value)
    } else {
        Err(())
    }
}

/// Builds a `String` from bytes with `String::from_utf8`, dropping the error's detail.
/// The claim, as std documents it: the result is `Ok` exactly when the bytes are valid UTF-8,
/// and then holds the characters those bytes encode.
#[verifier::external_body]
fn string_from_utf8(bytes: Vec<u8>) -> (r: Result<String, ()>)
    ensures
        r is Ok <==> vstd::utf8::valid_utf8(bytes@),
        r is Ok ==> r->Ok_0@ == vstd::utf8::decode_utf8(bytes@),
{
    String::from_utf8(bytes).map_err(|_| ())
}

/// Extracts byte `k` of `w` in little-endian order.
fn le_byte_of(w: u32, k: u32) -> (b: u8)
    requires
        k < 4,
    ensures
        b == le_byte(w, k as int),
{
    ((w >> (8 * k)) & 0xff) as u8
}

/// The VideoCore firmware, reached through the mailbox property channel.
pub struct RpiFirmware {
    id: String,
}

impl RpiFirmware {
    /// The identifier (device tree path) of this firmware device.
    pub closed spec fn id_view(&self) -> Seq<char> {
        self.id@
    }

    pub fn new(id: String) -> (f: Self)
        ensures
            f.id_view() == id@,
    {
        Self { id }
    }

    pub fn id(&self) -> (s: &str)
        ensures
            s@ == self.id_view(),
    {
        self.id.as_str()
    }

    /// The word written to the mailbox to submit the message at physical address `phys_addr`:
    /// the address (whose low four bits are zero for a 64-byte aligned message) tagged with the
    /// property channel.
    pub fn property_request(phys_addr: usize) -> (data: u32)
        ensures
            data == (phys_addr as u32) | MBOX_0_CH_8_ARM_VC_TAGS,
    {
        phys_addr as u32 | MBOX_0_CH_8_ARM_VC_TAGS
    }

    /// The outcome of a property request: the word read back from the mailbox must echo the word
    /// that was sent, and the firmware must have marked the message as successfully processed.
    pub fn property(&self, sent: u32, received: u32, response_code: u32) -> (r: Result<(), ()>)
        ensures
            r is Ok <==> (received == sent && response_code == RESPONSE_CODE_SUCCESS),
    {
        if received != sent {
            return Err(());
        }
        if response_code != RESPONSE_CODE_SUCCESS {
            return Err(());
        }
        Ok(())
    }

    /// The firmware revision from the response to `Message::new_get_firmware_revision()`.
    pub fn get_firmware_revision(&self, response: &Message<14>) -> (r: Result<u32, ()>)
        ensures
            r == response_result(response.req_res_code, response.data@[3]),
    {
        if response.req_res_code != RESPONSE_CODE_SUCCESS {
            return Err(());
        }
        Ok(response.data[3])
    }

    /// The board model from the response to `Message::new_get_board_model()`.
    pub fn get_board_model(&self, response: &Message<14>) -> (r: Result<u32, ()>)
        ensures
            r == response_result(response.req_res_code, response.data@[3]),
    {
        if response.req_res_code != RESPONSE_CODE_SUCCESS {
            return Err(());
        }
        Ok(response.data[3])
    }

    /// The board revision from the response to `Message::new_get_board_revision()`.
    pub fn get_board_revision(&self, response: &Message<14>) -> (r: Result<u32, ()>)
        ensures
            r == response_result(response.req_res_code, response.data@[3]),
    {
        if response.req_res_code != RESPONSE_CODE_SUCCESS {
            return Err(());
        }
        Ok(response.data[3])
    }

    /// The board MAC address from the response to `Message::new_get_board_mac_address()`: the
    /// six bytes of the value buffer in memory order.
    pub fn get_board_mac_address(&self, response: &Message<14>) -> (r: Result<[u8; 6], ()>)
        ensures
            r is Ok <==> response.req_res_code == RESPONSE_CODE_SUCCESS,
            r is Ok ==> r->Ok_0@ == words_le_bytes(response.data@.subrange(3, 5)).take(6),
    {
        if response.req_res_code != RESPONSE_CODE_SUCCESS {
            return Err(());
        }
        let word0 = response.data[3];
        let word1 = response.data[4];
        let mac = [
            le_byte_of(word0, 0),
            le_byte_of(word0, 1),
            le_byte_of(word0, 2),
            le_byte_of(word0, 3),
            le_byte_of(word1, 0),
            le_byte_of(word1, 1),
        ];
        assert(mac@ =~= words_le_bytes(response.data@.subrange(3, 5)).take(6));
        Ok(mac)
    }

    /// The board serial number from the response to `Message::new_get_board_serial()`: the low
    /// word first, then the high word.
    pub fn get_board_serial(&self, response: &Message<14>) -> (r: Result<u64, ()>)
        ensures
            r == response_result(
                response.req_res_code,
                (response.data@[4] as int * 0x1_0000_0000 + response.data@[3] as int) as u64,
            ),
    {
        if response.req_res_code != RESPONSE_CODE_SUCCESS {
            return Err(());
        }
        let low = response.data[3] as u64;
        let high = response.data[4] as u64;
        assert((high << 32u64) | low == high * 0x1_0000_0000 + low) by (bit_vector)
            requires
                low < 0x1_0000_0000,
                high < 0x1_0000_0000,
        ;
        Ok((high << 32u64) | low)
    }

    /// The ARM memory region (base address, size in bytes) from the response to
    /// `Message::new_get_arm_memory()`.
    pub fn get_arm_memory(&self, response: &Message<14>) -> (r: Result<(u32, u32), ()>)
        ensures
            r == response_result(response.req_res_code, (response.data@[3], response.data@[4])),
    {
        if response.req_res_code != RESPONSE_CODE_SUCCESS {
            return Err(());
        }
        Ok((response.data[3], response.data[4]))
    }

    /// The VideoCore memory region (base address, size in bytes) from the response to
    /// `Message::new_get_vc_memory()`.
    pub fn get_vc_memory(&self, response: &Message<14>) -> (r: Result<(u32, u32), ()>)
        ensures
            r == response_result(response.req_res_code, (response.data@[3], response.data@[4])),
    {
        if response.req_res_code != RESPONSE_CODE_SUCCESS {
            return Err(());
        }
        Ok((response.data[3], response.data[4]))
    }

    /// The bitmask of usable DMA channels (0-15) from the response to
    /// `Message::new_get_dma_channels()`.
    pub fn get_dma_channels(&self, response: &Message<14>) -> (r: Result<u32, ()>)
        ensures
            r == response_result(response.req_res_code, response.data@[3]),
    {
        if response.req_res_code != RESPONSE_CODE_SUCCESS {
            return Err(());
        }
        Ok(response.data[3])
    }

    /// The kernel command line from the response to `Message::new_get_command_line()`: the bytes
    /// of the message from the tag's value buffer on, up to the first zero byte, read as UTF-8.
    pub fn get_command_line(&self, response: &Message<318>) -> (r: Result<String, ()>)
        ensures
            response.req_res_code != RESPONSE_CODE_SUCCESS ==> r is Err,
            response.req_res_code == RESPONSE_CODE_SUCCESS ==> exists|line: Seq<u8>|
                {
                    &&& is_nul_terminated_prefix(
                        words_le_bytes(response.data@.subrange(3, 318)),
                        line,
                    )
                    &&& (r is Ok <==> vstd::utf8::valid_utf8(line))
                    &&& (r is Ok ==> r->Ok_0@ == vstd::utf8::decode_utf8(line))
                },
    {
        if response.req_res_code != RESPONSE_CODE_SUCCESS {
            return Err(());
        }
        let ghost all = words_le_bytes(response.data@.subrange(3, 318));
        let mut bytes: Vec<u8> = Vec::new();
        let mut w: usize = 3;
        while w < 318
            invariant
                3 <= w <= 318,
                all == words_le_bytes(response.data@.subrange(3, 318)),
                response.req_res_code == RESPONSE_CODE_SUCCESS,
                all.len() == 315 * 4,
                bytes@.len() == (w - 3) * 4,
                bytes@ == all.take(bytes@.len() as int),
                forall|i: int| 0 <= i < bytes@.len() ==> bytes@[i] != 0,
            decreases 318 - w,
        {
            let word = response.data[w];
            let mut k: u32 = 0;
            while k < 4
                invariant
                    3 <= w < 318,
                    0 <= k <= 4,
                    word == response.data@[w as int],
                    all == words_le_bytes(response.data@.subrange(3, 318)),
                    response.req_res_code == RESPONSE_CODE_SUCCESS,
                    all.len() == 315 * 4,
                    bytes@.len() == (w - 3) * 4 + k,
                    bytes@ == all.take(bytes@.len() as int),
                    forall|i: int| 0 <= i < bytes@.len() ==> bytes@[i] != 0,
                decreases 4 - k,
            {
                let b = le_byte_of(word, k);
                assert(all[bytes@.len() as int] == b);
                if b == 0 {
                    assert(is_nul_terminated_prefix(all, bytes@));
                    return string_from_utf8(bytes);
                }
                bytes.push(b);
                assert(bytes@ =~= all.take(bytes@.len() as int));
                k += 1;
            }
            w += 1;
        }
        assert(bytes@ =~= all);
        assert(is_nul_terminated_prefix(all, bytes@));
        string_from_utf8(bytes)
    }
}

/// The driver of the firmware.
pub struct RpiFirmwareDriver {
    pub dev_registry: DriverRegistry<RpiFirmware>,
}

impl RpiFirmwareDriver {
    pub fn new() -> (d: Self)
        ensures
            d.dev_registry.view() == Map::<Seq<char>, RpiFirmware>::empty(),
    {
        RpiFirmwareDriver { dev_registry: DriverRegistry::new() }
    }

    pub fn compatible(&self) -> (c: &'static str)
        ensures
            c@ == "raspberrypi,bcm2835-firmware"@,
    {
        "raspberrypi,bcm2835-firmware"
    }
}

/// The registered firmware, if any.
pub fn get_firmware(slot: &OnceSlot<RpiFirmware>) -> (f: Option<&RpiFirmware>)
    ensures
        f == (match slot.spec_get() {
            Some(x) => Some(&x),
            None => None,
        }),
{
    slot.get()
}

} // verus!
