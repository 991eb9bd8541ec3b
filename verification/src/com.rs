//! Serial console encoding: the byte stream sent to the serial port, with
//! the newline convention applied.  The port writes themselves are done by
//! unverified boot code under an interrupts-off mutual-exclusion guard.

use vstd::prelude::*;

verus! {

/// The byte stream the serial line carries for `s`: a line feed does not
/// move the cursor to the column start by itself, so each 0x0A is
/// followed by a carriage return 0x0D; every other byte passes verbatim.
pub open spec fn serial_encoding(s: Seq<u8>) -> Seq<u8>
    decreases s.len(),
{
    if s.len() == 0 {
        Seq::empty()
    } else {
        serial_encoding(s.drop_last()) + (if s.last() == 0x0a {
            seq![0x0au8, 0x0du8]
        } else {
            seq![s.last()]
        })
    }
}

/// The serial console writer: it owns one port address.
pub struct SerialWriter {
    port: u16,
}

impl SerialWriter {
    pub closed spec fn spec_port(self) -> u16 {
        self.port
    }

    pub fn new(port_addr: u16) -> (r: Self)
        ensures
            r.spec_port() == port_addr,
    {
        SerialWriter { port: port_addr }
    }

    pub fn port(&self) -> (r: u16)
        ensures
            r == self.spec_port(),
    {
        self.port
    }

    /// The bytes to write to the port for `data`, in order: each line
    /// feed followed by an inserted carriage return, all else verbatim.
    pub fn encode(&self, data: &Vec<u8>) -> (r: Vec<u8>)
        ensures
            r@ == serial_encoding(data@),
    {
        let count = data.len();
        let mut out: Vec<u8> = Vec::new();
        let mut i: usize = 0;
        proof {
            assert(data@.take(0) =~= Seq::<u8>::empty());
        }
        while i < count
            invariant
                i <= count == data@.len(),
                out@ == serial_encoding(data@.take(i as int)),
            decreases count - i,
        {
            let ghost prev = out@;
            let b = data[i];
            proof {
                assert(data@.take(i + 1).drop_last() =~= data@.take(i as int));
                assert(data@.take(i + 1).last() == data@[i as int]);
            }
            if b == 0x0a {
                out.push(0x0a);
                out.push(0x0d);
                proof {
                    assert(prev.push(0x0au8).push(0x0du8) =~= prev + seq![0x0au8, 0x0du8]);
                }
            } else {
                out.push(b);
                proof {
                    assert(prev.push(b) =~= prev + seq![b]);
                }
            }
            i = i + 1;
        }
        proof {
            assert(data@.take(count as int) =~= data@);
        }
        out
    }
}

} // verus!
