//! Streaming encryption: chunks are gathered under one nonce and sealed as
//! one message when the last chunk arrives.

use crate::aead::NONCE_LEN;
use crate::crypto::{generate_nonce, optional_view, CryptoService};
use crate::error::CryptoError;
use crate::secure::wipe;
use vstd::prelude::*;

verus! {

/// One streaming session: what has been gathered, the nonce that was chosen
/// when the session began, and the count of bytes taken so far.
pub struct StreamState {
    buffer: Vec<u8>,
    nonce: Vec<u8>,
    processed_bytes: u64,
}

impl StreamState {
    /// The plaintext gathered and not yet sealed.
    pub closed spec fn buffered(&self) -> Seq<u8> {
        self.buffer@
    }

    /// The nonce of the session.
    pub closed spec fn nonce_of(&self) -> Seq<u8> {
        self.nonce@
    }

    /// The number of bytes taken so far.
    pub closed spec fn processed(&self) -> u64 {
        self.processed_bytes
    }

    /// The nonce has the length that the cipher takes.
    pub open spec fn wf(&self) -> bool {
        self.nonce_of().len() == NONCE_LEN
    }

    /// A session that has taken nothing yet.
    pub fn new(nonce: Vec<u8>) -> (state: StreamState)
        requires
            nonce@.len() == NONCE_LEN,
        ensures
            state.wf(),
            state.nonce_of() == nonce@,
            state.buffered() == Seq::<u8>::empty(),
            state.processed() == 0,
    {
        StreamState { buffer: Vec::new(), nonce, processed_bytes: 0 }
    }

    /// The number of bytes taken so far.
    pub fn processed_bytes(&self) -> (n: u64)
        ensures
            n == self.processed(),
    {
        self.processed_bytes
    }
}

impl CryptoService {
    /// Begins a streaming session under a fresh random nonce.
    pub fn init_stream_encrypt(&self) -> (r: Result<StreamState, CryptoError>)
        ensures
            match r {
                Ok(state) => state.wf() && state.buffered() == Seq::<u8>::empty()
                    && state.processed() == 0,
                Err(e) => e.is_standard(1023),
            },
    {
        match generate_nonce() {
            Ok(nonce) => Ok(StreamState::new(nonce)),
            Err(e) => Err(e),
        }
    }

    /// Takes one chunk. A chunk that is not the last is gathered, and
    /// nothing is returned for it. With the last chunk everything gathered
    /// is sealed for `context` as one message, under the nonce of the
    /// session, and the gathered plaintext is wiped. Where the cipher does
    /// not seal that much, the session keeps what it gathered.
    pub fn stream_encrypt_chunk(
        &self,
        state: &mut StreamState,
        data: &[u8],
        context: &[u8],
        aad: Option<&[u8]>,
        is_final: bool,
    ) -> (r: Result<Vec<u8>, CryptoError>)
        requires
            old(state).wf(),
            old(state).processed() + data@.len() <= u64::MAX,
        ensures
            final(state).wf(),
            final(state).processed() == old(state).processed() + data@.len(),
            final(state).nonce_of() == old(state).nonce_of(),
            !is_final ==> r is Ok
                && r->Ok_0@.len() == 0
                && final(state).buffered() == old(state).buffered() + data@,
            is_final ==> (r is Ok <==> CryptoService::sealable(
                old(state).buffered() + data@,
                context@,
                optional_view(aad),
            )),
            is_final ==> match r {
                Ok(out) => out@ == self.sealed_frame(
                    old(state).nonce_of(),
                    old(state).buffered() + data@,
                    context@,
                    optional_view(aad),
                ) && final(state).buffered().len() == 0,
                Err(e) => e.is_standard(1022) && final(state).buffered() == old(state).buffered()
                    + data@,
            },
    {
        state.buffer.extend_from_slice(data);
        state.processed_bytes = state.processed_bytes + data.len() as u64;
        assert(state.buffered() == old(state).buffered() + data@);
        assert(state.nonce_of() == old(state).nonce_of());
        if !is_final {
            return Ok(Vec::new());
        }
        match self.encrypt_with_nonce(
            state.nonce.as_slice(),
            state.buffer.as_slice(),
            context,
            aad,
        ) {
            Ok(out) => {
                wipe(&mut state.buffer);
                Ok(out)
            },
            Err(_) => Err(CryptoError::standard(1022)),
        }
    }
}

} // verus!
