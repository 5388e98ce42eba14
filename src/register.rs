//! Register descriptors, the requests that read and write them, and tables of
//! registers whose byte ranges never overlap.
use vstd::prelude::*;
use crate::codec::{Encoding, Width};
use crate::error::Error;

verus! {

/// Whether a register may be written.
#[derive(Clone, Copy, Debug, PartialEq, Eq, Structural)]
pub enum Access {
    ReadOnly,
    ReadWrite,
}

/// One field of a servo's control table.
#[derive(Clone, Copy, Debug)]
pub struct Register {
    pub name: &'static str,
    /// Byte offset of the field in the control table.
    pub address: u16,
    pub encoding: Encoding,
    pub access: Access,
}

/// A request for `length` bytes at `address` of servo `id`.
#[derive(Clone, Copy, Debug, PartialEq, Eq, Structural)]
pub struct ReadRequest {
    pub id: u8,
    pub address: u16,
    pub length: usize,
}

/// A request to store `data` at `address` of servo `id`.
#[derive(Clone, Debug, PartialEq, Eq)]
pub struct WriteRequest {
    pub id: u8,
    pub address: u16,
    pub data: Vec<u8>,
}

impl Register {
    /// First byte past the register.
    pub open spec fn end(self) -> int {
        self.address + self.encoding.width.spec_bytes()
    }

    /// The byte ranges of `self` and `other` do not overlap.
    pub open spec fn disjoint(self, other: Register) -> bool {
        self.end() <= other.address || other.end() <= self.address
    }

    /// What a read of this register makes of the transport's reply.
    pub open spec fn decoded(self, reply: Result<Vec<u8>, String>) -> Result<i64, Error> {
        match reply {
            Err(m) => Err(Error::Transport(m)),
            Ok(b) => if b@.len() == self.encoding.width.spec_bytes() {
                Ok(self.encoding.value_of(b@) as i64)
            } else {
                Err(Error::Format)
            },
        }
    }

    pub open spec fn spec_new(
        name: &'static str,
        address: u16,
        width: Width,
        signed: bool,
        access: Access,
    ) -> Register {
        Register { name, address, encoding: Encoding { width, signed }, access }
    }

    pub fn new(name: &'static str, address: u16, width: Width, signed: bool, access: Access) -> (r:
        Register)
        ensures
            r == Register::spec_new(name, address, width, signed, access),
    {
        Register { name, address, encoding: Encoding { width, signed }, access }
    }

    /// The request that reads this register of servo `id`.
    pub fn read_request(&self, id: u8) -> (r: ReadRequest)
        ensures
            r.id == id,
            r.address == self.address,
            r.length == self.encoding.width.spec_bytes(),
    {
        ReadRequest { id, address: self.address, length: self.encoding.width.bytes() }
    }

    /// Decodes the transport's reply to `read_request`: its error passes
    /// through, and a block of the wrong length is a format error.
    pub fn read_reply(&self, reply: Result<Vec<u8>, String>) -> (r: Result<i64, Error>)
        ensures
            r == self.decoded(reply),
    {
        match reply {
            Err(m) => Err(Error::Transport(m)),
            Ok(b) => {
                let r = self.encoding.decode(b.as_slice());
                proof {
                    if r is Ok {
                        crate::codec::lemma_value_fits(self.encoding, b@);
                    }
                }
                r
            },
        }
    }

    /// The request that stores `value` in this register of servo `id`, or a
    /// format error, and nothing to send, where the register cannot hold it.
    pub(crate) fn write_request(&self, id: u8, value: i64) -> (r: Result<WriteRequest, Error>)
        ensures
            r is Ok <==> self.encoding.represents(value as int),
            r matches Ok(w) ==> w.id == id && w.address == self.address && w.data@
                == self.encoding.bytes_of(value as int),
            r matches Err(e) ==> e == Error::Format,
    {
        match self.encoding.encode(value) {
            Ok(data) => Ok(WriteRequest { id, address: self.address, data }),
            Err(e) => Err(e),
        }
    }
}

/// No two registers of `s` overlap.
pub open spec fn no_overlap(s: Seq<Register>) -> bool {
    forall|i: int, j: int| 0 <= i < j < s.len() ==> #[trigger] s[i].disjoint(#[trigger] s[j])
}

/// Each register of `s` ends at or before the start of every later one:
/// the registers are in increasing address order and none overlaps another.
pub open spec fn in_address_order(s: Seq<Register>) -> bool {
    forall|i: int, j: int| 0 <= i < j < s.len() ==> #[trigger] s[i].end() <= #[trigger] s[j].address
}

/// Registers of one servo model. The table's rule is address order: each
/// register starts at or after the end of the one before it, so no two
/// registers overlap.
pub struct RegisterTable {
    registers: Vec<Register>,
}

impl View for RegisterTable {
    type V = Seq<Register>;

    closed spec fn view(&self) -> Seq<Register> {
        self.registers@
    }
}

impl RegisterTable {
    /// The registers are in address order.
    pub open spec fn wf(&self) -> bool {
        in_address_order(self@)
    }

    /// `reg` may be appended: it starts at or after the end of the last
    /// register of the table.
    pub open spec fn fits_after(&self, reg: Register) -> bool {
        self@.len() == 0 || self@.last().end() <= reg.address
    }

    pub fn new() -> (t: RegisterTable)
        ensures
            t.wf(),
            t@ == Seq::<Register>::empty(),
    {
        RegisterTable { registers: Vec::new() }
    }

    /// Appends `reg`, which starts at or after the end of the last register.
    pub fn push(&mut self, reg: Register)
        requires
            old(self).wf(),
            old(self).fits_after(reg),
        ensures
            final(self).wf(),
            final(self)@ == old(self)@.push(reg),
    {
        let ghost before = self@;
        self.registers.push(reg);
        assert forall|i: int, j: int| 0 <= i < j < self@.len() implies #[trigger] self@[i].end()
            <= #[trigger] self@[j].address by {
            if j == before.len() && i < before.len() - 1 {
                assert(before[i].end() <= before[before.len() - 1].address);
            }
        }
    }

    pub fn len(&self) -> (r: usize)
        ensures
            r == self@.len(),
    {
        self.registers.len()
    }

    pub fn get(&self, i: usize) -> (r: Register)
        requires
            i < self@.len(),
        ensures
            r == self@[i as int],
    {
        self.registers[i]
    }

    /// No two registers of a well-formed table overlap.
    pub proof fn lemma_no_overlap(&self)
        requires
            self.wf(),
        ensures
            no_overlap(self@),
    {
        assert forall|i: int, j: int| 0 <= i < j < self@.len() implies #[trigger] self@[i].disjoint(
            #[trigger] self@[j]) by {
            assert(self@[i].end() <= self@[j].address);
        }
    }
}

} // verus!
