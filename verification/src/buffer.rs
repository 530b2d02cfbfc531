//! A fixed-size buffer that is written to and then read back from.
use mqttrs::Error as MqttrsError;
use vstd::prelude::*;
use vstd::string::StringSliceAdditionalSpecFns;

use crate::mqtt::{
    encode_connect, encode_publish, encode_short, encode_subscribe, encode_unsubscribe,
    mqtt_encode, OutPacket,
};
use crate::Error;

verus! {

/// The error of a write into a [`Buffer`] that has no room left.
#[derive(Clone, Copy, PartialEq, Eq, Structural, Debug)]
pub enum WriteError {
    /// The buffer is full.
    Full,
}

/// A stack allocated buffer that can be written to and then read back from.
/// Its view is the sequence of bytes written so far.
pub struct Buffer<const N: usize> {
    bytes: [u8; N],
    cursor: usize,
}

impl<const N: usize> View for Buffer<N> {
    type V = Seq<u8>;

    closed spec fn view(&self) -> Seq<u8> {
        self.bytes@.take(self.cursor as int)
    }
}

impl<const N: usize> Default for Buffer<N> {
    fn default() -> (r: Self)
        ensures
            r@ == Seq::<u8>::empty(),
    {
        Self::new()
    }
}

impl<const N: usize> Buffer<N> {
    #[verifier::type_invariant]
    spec fn inv(&self) -> bool {
        self.cursor <= N
    }

    /// Creates a new, empty buffer.
    pub fn new() -> (r: Self)
        ensures
            r@ == Seq::<u8>::empty(),
    {
        let r = Buffer { bytes: [0u8; N], cursor: 0 };
        assert(r@ =~= Seq::<u8>::empty());
        r
    }

    /// Creates a new buffer and writes the given data into it, failing with
    /// [`Error::TooLarge`] when the data does not fit.
    pub fn from(buf: &[u8]) -> (r: Result<Self, Error>)
        ensures
            r is Ok <==> buf@.len() <= N,
            r matches Ok(b) ==> b@ == buf@,
            r matches Err(e) ==> e == Error::TooLarge,
    {
        let mut buffer = Self::new();
        match buffer.write_all(buf) {
            Ok(()) => Ok(buffer),
            Err(_) => Err(Error::TooLarge),
        }
    }

    /// The number of bytes written so far.
    pub fn len(&self) -> (r: usize)
        ensures
            r == self@.len(),
            r <= N,
    {
        proof {
            use_type_invariant(self);
        }
        self.cursor
    }

    /// The number of bytes available for writing into this buffer.
    pub fn available(&self) -> (r: usize)
        ensures
            r == N - self@.len(),
    {
        proof {
            use_type_invariant(self);
        }
        N - self.cursor
    }

    /// Resets the buffer discarding any previously written bytes.
    pub fn reset(&mut self)
        ensures
            final(self)@ == Seq::<u8>::empty(),
    {
        self.cursor = 0;
        assert(self@ =~= Seq::<u8>::empty());
    }

    /// The bytes written so far.
    pub fn as_bytes(&self) -> (r: &[u8])
        ensures
            r@ == self@,
    {
        proof {
            use_type_invariant(self);
        }
        let all: &[u8] = self.bytes.as_slice();
        &all[0..self.cursor]
    }

    /// Writes as much of `buf` as there is room for and returns how many bytes
    /// were written. Fails only when `buf` is not empty and the buffer is full.
    pub fn write(&mut self, buf: &[u8]) -> (r: Result<usize, WriteError>)
        ensures
            buf@.len() == 0 ==> r == Ok::<usize, WriteError>(0) && final(self)@ == old(self)@,
            buf@.len() > 0 && old(self)@.len() == N ==> r == Err::<usize, WriteError>(
                WriteError::Full,
            ) && final(self)@ == old(self)@,
            buf@.len() > 0 && old(self)@.len() < N ==> {
                let n = if buf@.len() < N - old(self)@.len() {
                    buf@.len()
                } else {
                    (N - old(self)@.len()) as nat
                };
                &&& r == Ok::<usize, WriteError>(n as usize)
                &&& final(self)@ == old(self)@ + buf@.take(n as int)
            },
    {
        proof {
            use_type_invariant(&*self);
        }
        if buf.len() == 0 {
            return Ok(0);
        }
        let available = N - self.cursor;
        let writable = if available < buf.len() {
            available
        } else {
            buf.len()
        };
        if writable == 0 {
            return Err(WriteError::Full);
        }
        let start = self.cursor;
        let ghost before = self.bytes@;
        let mut i: usize = 0;
        while i < writable
            invariant
                start + writable <= N,
                writable <= buf@.len(),
                i <= writable,
                self.cursor == start,
                self.bytes@.len() == N,
                self.bytes@.take(start as int) == before.take(start as int),
                self.bytes@.subrange(start as int, start + i) == buf@.take(i as int),
            decreases writable - i,
        {
            self.bytes[start + i] = buf[i];
            i = i + 1;
            assert(self.bytes@.subrange(start as int, start + i) =~= buf@.take(i as int));
            assert(self.bytes@.take(start as int) =~= before.take(start as int));
        }
        self.cursor = start + writable;
        assert(self@ =~= old(self)@ + buf@.take(writable as int)) by {
            assert(self.bytes@.take(self.cursor as int) =~= self.bytes@.take(start as int)
                + self.bytes@.subrange(start as int, start + writable));
        }
        Ok(writable)
    }

    /// Writes all of `buf`. When it does not fit, the part that does is
    /// written and the call fails with [`WriteError::Full`].
    pub fn write_all(&mut self, buf: &[u8]) -> (r: Result<(), WriteError>)
        ensures
            old(self)@.len() + buf@.len() <= N ==> r is Ok && final(self)@ == old(self)@ + buf@,
            old(self)@.len() + buf@.len() > N ==> r == Err::<(), WriteError>(WriteError::Full)
                && final(self)@ == old(self)@ + buf@.take(N - old(self)@.len()),
    {
        proof {
            use_type_invariant(&*self);
        }
        let mut rest: &[u8] = buf;
        let ghost written: int = 0;
        while rest.len() > 0
            invariant_except_break
                0 <= written <= buf@.len(),
                rest@ == buf@.skip(written),
                self@ == old(self)@ + buf@.take(written),
                old(self)@.len() + written <= N,
            ensures
                old(self)@.len() + buf@.len() <= N ==> self@ == old(self)@ + buf@ && rest@.len()
                    == 0,
                old(self)@.len() + buf@.len() > N ==> self@ == old(self)@ + buf@.take(
                    N - old(self)@.len(),
                ) && rest@.len() > 0,
            decreases rest@.len(),
        {
            proof {
                use_type_invariant(&*self);
            }
            match self.write(rest) {
                Ok(n) => {
                    proof {
                        assert(buf@.take(written + n) =~= buf@.take(written) + rest@.take(
                            n as int,
                        ));
                        written = written + n;
                    }
                    rest = &rest[n..rest.len()];
                    assert(rest@ =~= buf@.skip(written));
                },
                Err(_) => {
                    assert(buf@.take(written) =~= buf@.take(N - old(self)@.len()));
                    break ;
                },
            }
        }
        if rest.len() > 0 {
            Err(WriteError::Full)
        } else {
            Ok(())
        }
    }

    /// Writes the UTF-8 bytes of `s`, as [`Buffer::write_all`] does.
    pub fn write_str(&mut self, s: &str) -> (r: Result<(), WriteError>)
        ensures
            old(self)@.len() + s.spec_bytes().len() <= N ==> r is Ok && final(self)@ == old(
                self,
            )@ + s.spec_bytes(),
            old(self)@.len() + s.spec_bytes().len() > N ==> r is Err && final(self)@ == old(
                self,
            )@ + s.spec_bytes().take(N - old(self)@.len()),
    {
        self.write_all(s.as_bytes())
    }

    /// Encodes an MQTT packet after the bytes written so far. On failure what
    /// has been written is kept.
    pub fn encode_packet(&mut self, packet: &OutPacket) -> (r: Result<(), MqttrsError>)
        requires
            packet.wf(),
        ensures
            r is Ok <==> (mqtt_encode(packet@) matches Some(e) && old(self)@.len() + e.len()
                <= N),
            r is Ok ==> final(self)@ == old(self)@ + mqtt_encode(packet@).unwrap(),
            r is Err ==> final(self)@ == old(self)@,
    {
        proof {
            use_type_invariant(&*self);
        }
        let offset = self.cursor;
        let mut bytes = self.bytes;
        let res = match packet {
            OutPacket::Connect(c) => encode_connect(c, &mut bytes, offset),
            OutPacket::Publish(p) => encode_publish(p, &mut bytes, offset),
            OutPacket::Short(s) => encode_short(*s, &mut bytes, offset),
            OutPacket::Subscribe { pid, topic_path, qos } => encode_subscribe(
                *pid,
                topic_path,
                *qos,
                &mut bytes,
                offset,
            ),
            OutPacket::Unsubscribe { pid, topic_path } => encode_unsubscribe(
                *pid,
                topic_path,
                &mut bytes,
                offset,
            ),
        };
        match res {
            Ok(n) => {
                self.bytes = bytes;
                self.cursor = offset + n;
                assert(self@ =~= old(self)@ + mqtt_encode(packet@).unwrap()) by {
                    assert(self.bytes@.take(self.cursor as int) =~= self.bytes@.take(offset as int)
                        + self.bytes@.subrange(offset as int, offset + n));
                }
                Ok(())
            },
            Err(e) => {
                assert(self@ =~= old(self)@);
                Err(e)
            },
        }
    }
}

} // verus!
