//! An adapter over a byte buffer that the engine owns: the host reads the
//! input through it and writes the output into it, and the engine's
//! descriptor is brought up to date before the engine looks again.

use vstd::prelude::*;

verus! {

/// The fields of the engine's buffer descriptor that the adapter reads and
/// writes: whether the data pointer is set, and the length it goes with.
#[derive(Clone, Copy, Debug, PartialEq, Eq, Structural)]
pub struct RawBuf {
    /// Whether the data pointer is non-null.
    pub present: bool,
    /// Number of bytes behind the data pointer.
    pub size: usize,
}

/// The descriptor of a buffer that holds `data`: a null pointer for no
/// data, else a pointer that goes with the length of the data.
pub open spec fn descriptor_of(data: Option<Seq<u8>>) -> RawBuf {
    match data {
        Some(bytes) => RawBuf { present: true, size: bytes.len() as usize },
        None => RawBuf { present: false, size: 0 },
    }
}

/// Adapter over an engine-owned buffer. It is either empty, with no data
/// behind it, or populated with a byte sequence that the host may read and
/// grow.
#[derive(Debug)]
pub struct FilterBuf {
    raw: RawBuf,
    data: Option<Vec<u8>>,
}

impl View for FilterBuf {
    type V = Seq<u8>;

    /// The bytes that a reader sees: those of the sequence, or none while
    /// the buffer is empty.
    closed spec fn view(&self) -> Seq<u8> {
        match self.data {
            Some(v) => v@,
            None => Seq::empty(),
        }
    }
}

impl FilterBuf {
    /// Whether a byte sequence stands behind the buffer.
    pub closed spec fn is_populated(self) -> bool {
        self.data is Some
    }

    /// The engine's descriptor as it stands now. It trails the host's
    /// writes until [`FilterBuf::sync`] has run.
    pub closed spec fn descriptor(self) -> RawBuf {
        self.raw
    }

    /// The byte sequence behind the buffer, if there is one.
    pub open spec fn contents(self) -> Option<Seq<u8>> {
        if self.is_populated() {
            Some(self@)
        } else {
            None
        }
    }

    /// Whether the engine's descriptor agrees with the host's sequence, so
    /// that the engine sees what the host wrote last.
    pub open spec fn in_sync(self) -> bool {
        self.descriptor() == descriptor_of(self.contents())
    }

    /// The buffer that adapting `data` gives.
    pub closed spec fn adapted(data: Option<Vec<u8>>) -> FilterBuf {
        FilterBuf {
            raw: match data {
                Some(v) => RawBuf { present: true, size: v@.len() as usize },
                None => RawBuf { present: false, size: 0 },
            },
            data,
        }
    }

    /// Adapts the engine's buffer. A null data pointer (`None`) gives an
    /// empty buffer; otherwise the buffer is populated with the engine's
    /// bytes, which are exactly as many as the engine's length says.
    pub fn from_raw(data: Option<Vec<u8>>) -> (buf: FilterBuf)
        ensures
            buf == Self::adapted(data),
            buf.is_populated() == data is Some,
            data is Some ==> buf@ == data->Some_0@,
            data is None ==> buf@ == Seq::<u8>::empty(),
            buf.in_sync(),
    {
        let raw = match &data {
            Some(v) => RawBuf { present: true, size: v.len() },
            None => RawBuf { present: false, size: 0 },
        };
        FilterBuf { raw, data }
    }

    /// The engine's descriptor as it stands now.
    pub fn raw(&self) -> (raw: RawBuf)
        ensures
            raw == self.descriptor(),
    {
        self.raw
    }

    /// The bytes of the buffer; none while it is empty.
    pub fn as_bytes(&self) -> (bytes: &[u8])
        ensures
            bytes@ == self@,
            !self.is_populated() ==> bytes@.len() == 0,
    {
        match &self.data {
            Some(data) => data.as_slice(),
            None => &[],
        }
    }

    /// The byte sequence behind the buffer, open for writing. An empty
    /// buffer becomes populated with an empty sequence first. The buffer
    /// ends up holding whatever the caller leaves in the sequence; the
    /// engine's descriptor is not touched.
    pub fn as_allocated_vec(&mut self) -> (data: &mut Vec<u8>)
        ensures
            data@ == old(self)@,
            final(self).is_populated(),
            final(self)@ == final(data)@,
            final(self).descriptor() == old(self).descriptor(),
    {
        if self.data.is_none() {
            self.data = Some(Vec::new());
        }
        match &mut self.data {
            Some(data) => data,
            None => unreached(),
        }
    }

    /// Brings the engine's descriptor up to date with the host's sequence:
    /// data pointer and length are written back. An empty buffer leaves the
    /// descriptor as it is. The bytes do not change.
    pub fn sync(&mut self)
        ensures
            final(self)@ == old(self)@,
            final(self).is_populated() == old(self).is_populated(),
            old(self).is_populated() ==> final(self).in_sync(),
            !old(self).is_populated() ==> final(self).descriptor() == old(self).descriptor(),
    {
        match &self.data {
            Some(data) => {
                self.raw = RawBuf { present: true, size: data.len() };
            },
            None => {},
        }
    }

    /// Ends the host's use of the buffer and hands it back to the engine:
    /// the descriptor is brought up to date a last time and returned with
    /// the bytes it describes, so that the engine sees the host's final
    /// write. The engine, not the host, releases the memory.
    pub fn into_raw(self) -> (out: (RawBuf, Option<Vec<u8>>))
        ensures
            out.1 is Some == self.is_populated(),
            out.1 is Some ==> out.1->Some_0@ == self@,
            self.is_populated() ==> out.0 == descriptor_of(Some(self@)),
            !self.is_populated() ==> out.0 == self.descriptor(),
    {
        let mut buf = self;
        buf.sync();
        (buf.raw, buf.data)
    }
}

} // verus!
