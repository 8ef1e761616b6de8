//! Reading all tracked fields of one tick. The sampler goes through the
//! fields in order, asks for the bytes that the read of the current field
//! needs, and gathers the values into the tick's sample.

use crate::addresses::Addresses;
use crate::engine::Sample;
use crate::fields::{field_at, Field, FIELD_COUNT};
use crate::memory::MemoryWindow;
use crate::reader::{memory_of, Memory, Outcome, Progress, Reader, Request};
use vstd::prelude::*;

verus! {

/// The reads of one tick in progress: the session's table, the place of the
/// field that is being read, the read of that field, and the values
/// gathered so far.
#[derive(Clone, Copy, Debug)]
pub struct Sampler {
    pub addresses: Addresses,
    pub index: usize,
    pub reader: Reader,
    pub sample: Sample,
}

impl Sampler {
    /// The sampler before its first request: it stands at the first field
    /// and has gathered nothing.
    pub open spec fn started(addresses: Addresses) -> Sampler {
        Sampler {
            addresses,
            index: 0,
            reader: Reader::started(
                addresses.descriptor_of(Field::GameMode),
                addresses.is_64_bit,
            ),
            sample: Sample::blank(),
        }
    }

    /// Whether every field has been read.
    pub open spec fn done(self) -> bool {
        self.index >= FIELD_COUNT
    }

    /// The bytes that are needed next, while a field is left to read.
    pub open spec fn wanted(self) -> Option<Request> {
        if self.done() {
            None
        } else {
            Some(self.reader.wanted())
        }
    }

    /// The sampler after the answer to its request. While the read of the
    /// current field goes on, only that read moves. When it ends, its value
    /// is stored in the sample and the read of the next field starts.
    pub open spec fn supplied(self, fetched: Option<Seq<u8>>) -> Sampler {
        if self.done() {
            self
        } else {
            match self.reader.supplied(fetched) {
                Outcome::Next(reader) => Sampler { reader, ..self },
                Outcome::Value(bytes) => Sampler {
                    addresses: self.addresses,
                    index: (self.index + 1) as usize,
                    reader: match field_at((self.index + 1) as usize) {
                        Some(field) => Reader::started(
                            self.addresses.descriptor_of(field),
                            self.addresses.is_64_bit,
                        ),
                        None => self.reader,
                    },
                    sample: self.sample.stored(field_at(self.index)->0, bytes),
                },
            }
        }
    }

    /// The sample that the sampler ends with when every request is answered
    /// from `memory`.
    pub open spec fn result_in(self, memory: Memory) -> Sample
        decreases
                FIELD_COUNT - self.index,
                self.reader.descriptor.chain.offsets().len() - self.reader.level,
    {
        match self.wanted() {
            Some(request) => self.supplied(
                memory(request.address as int, request.len as int),
            ).result_in(memory),
            None => self.sample,
        }
    }

    /// Starts the reads of a tick.
    pub fn begin(addresses: Addresses) -> (sampler: Sampler)
        ensures
            sampler == Sampler::started(addresses),
    {
        Sampler {
            addresses,
            index: 0,
            reader: Reader::begin(addresses.descriptor(Field::GameMode), addresses.is_64_bit),
            sample: Sample::new(),
        }
    }

    /// The bytes that the caller has to read next, or nothing when every
    /// field has been read.
    pub fn request(&self) -> (request: Option<Request>)
        ensures
            request == self.wanted(),
    {
        if self.index >= FIELD_COUNT {
            None
        } else {
            Some(self.reader.request())
        }
    }

    /// Takes the answer to the request: the bytes read, or nothing where
    /// the read failed.
    pub fn supply(&mut self, fetched: Option<&[u8]>)
        ensures
            *final(self) == old(self).supplied(
                match fetched {
                    Some(bytes) => Some(bytes@),
                    None => None,
                },
            ),
    {
        let Some(field) = Field::at(self.index) else {
            return ;
        };
        match self.reader.supply(fetched) {
            Progress::Next(reader) => {
                self.reader = reader;
            },
            Progress::Value(bytes) => {
                self.sample.store(field, bytes.as_slice());
                self.index = self.index + 1;
                match Field::at(self.index) {
                    Some(next) => {
                        self.reader = Reader::begin(
                            self.addresses.descriptor(next),
                            self.addresses.is_64_bit,
                        );
                    },
                    None => {},
                }
            },
        }
    }

    /// The values gathered so far; the tick's sample once every field has
    /// been read.
    pub fn sample(&self) -> (sample: Sample)
        ensures
            sample == self.sample,
    {
        self.sample
    }
}

/// Reads every tracked field from a snapshot: every request of the sampler
/// is answered from the bytes of `window`.
pub fn sample_window(window: &MemoryWindow, addresses: Addresses) -> (sample: Sample)
    ensures
        sample == Sampler::started(addresses).result_in(memory_of(window)),
{
    let ghost memory = memory_of(window);
    let mut sampler = Sampler::begin(addresses);
    loop
        invariant
            memory == memory_of(window),
            sampler.result_in(memory) == Sampler::started(addresses).result_in(memory),
        decreases
                FIELD_COUNT - sampler.index,
                sampler.reader.descriptor.chain.offsets().len() - sampler.reader.level,
    {
        match sampler.request() {
            Some(request) => {
                let fetched = window.read_bytes(request.address, request.len);
                match &fetched {
                    Some(bytes) => sampler.supply(Some(bytes.as_slice())),
                    None => sampler.supply(None),
                }
            },
            None => {
                return sampler.sample();
            },
        }
    }
}

} // verus!
