//! Batch encryption and decryption: every item is processed, and a failure
//! of one item becomes a record instead of ending the batch.

use crate::aead::NONCE_LEN;
use crate::crypto::{optional_view, CryptoService};
use crate::error::CryptoError;
use crate::text::{decimal, numbered_string};
use vstd::prelude::*;
use vstd::slice::slice_to_vec;
use vstd::string::*;

verus! {

/// The byte sequences that a vector of byte vectors holds.
pub open spec fn byte_rows(rows: Seq<Vec<u8>>) -> Seq<Seq<u8>> {
    rows.map_values(|row: Vec<u8>| row@)
}

/// The character sequences that a vector of strings holds.
pub open spec fn text_rows(rows: Seq<String>) -> Seq<Seq<char>> {
    rows.map_values(|row: String| row@)
}

/// The sum of the lengths of `rows`.
pub open spec fn total_len(rows: Seq<Seq<u8>>) -> nat
    decreases rows.len(),
{
    if rows.len() == 0 {
        0
    } else {
        total_len(rows.drop_last()) + rows.last().len()
    }
}

/// Whether a batch is larger than the limit it was given. A batch without a
/// limit never is.
pub open spec fn over_limit(rows: Seq<Seq<u8>>, max_memory_bytes: Option<u32>) -> bool {
    match max_memory_bytes {
        Some(max) => total_len(rows) > max,
        None => false,
    }
}

/// The record of a failed item: its index in the batch and the message of
/// its error.
pub open spec fn error_record(index: nat, message: Seq<char>) -> Seq<char> {
    "Item "@ + decimal(index) + ": "@ + message
}

/// The outputs of the items that succeeded, in the order of the batch. The
/// outcome of an item is its output, or the message of its error.
pub open spec fn batch_successes(outcomes: Seq<Result<Seq<u8>, Seq<char>>>) -> Seq<Seq<u8>>
    decreases outcomes.len(),
{
    if outcomes.len() == 0 {
        Seq::empty()
    } else {
        match outcomes.last() {
            Ok(output) => batch_successes(outcomes.drop_last()).push(output),
            Err(_) => batch_successes(outcomes.drop_last()),
        }
    }
}

/// The records of the items that failed, in the order of the batch.
pub open spec fn batch_errors(outcomes: Seq<Result<Seq<u8>, Seq<char>>>) -> Seq<Seq<char>>
    decreases outcomes.len(),
{
    if outcomes.len() == 0 {
        Seq::empty()
    } else {
        match outcomes.last() {
            Ok(_) => batch_errors(outcomes.drop_last()),
            Err(message) => batch_errors(outcomes.drop_last()).push(
                error_record((outcomes.len() - 1) as nat, message),
            ),
        }
    }
}

/// Every item of a batch has exactly one place in the results.
pub proof fn lemma_batch_accounts_for_every_item(outcomes: Seq<Result<Seq<u8>, Seq<char>>>)
    ensures
        batch_successes(outcomes).len() + batch_errors(outcomes).len() == outcomes.len(),
    decreases outcomes.len(),
{
    if outcomes.len() > 0 {
        lemma_batch_accounts_for_every_item(outcomes.drop_last());
    }
}

/// What a batch gives: the outputs of the items that succeeded and the
/// records of those that failed.
pub struct BatchResult {
    successes: Vec<Vec<u8>>,
    errors: Vec<String>,
}

impl BatchResult {
    /// The outputs, in the order of the batch.
    pub closed spec fn successes_of(&self) -> Seq<Seq<u8>> {
        byte_rows(self.successes@)
    }

    /// The records, in the order of the batch.
    pub closed spec fn errors_of(&self) -> Seq<Seq<char>> {
        text_rows(self.errors@)
    }

    /// A result that holds the given outputs and records.
    pub fn new(successes: Vec<Vec<u8>>, errors: Vec<String>) -> (result: BatchResult)
        ensures
            result.successes_of() == byte_rows(successes@),
            result.errors_of() == text_rows(errors@),
    {
        BatchResult { successes, errors }
    }

    /// A copy of the outputs.
    pub fn successes(&self) -> (copy: Vec<Vec<u8>>)
        ensures
            byte_rows(copy@) == self.successes_of(),
    {
        let mut copy: Vec<Vec<u8>> = Vec::new();
        let mut i: usize = 0;
        while i < self.successes.len()
            invariant
                i <= self.successes.len(),
                copy@.len() == i,
                forall|k: int| 0 <= k < i ==> copy@[k]@ == self.successes@[k]@,
            decreases self.successes.len() - i,
        {
            copy.push(slice_to_vec(self.successes[i].as_slice()));
            i += 1;
        }
        assert(byte_rows(copy@) =~= byte_rows(self.successes@));
        copy
    }

    /// A copy of the records.
    pub fn errors(&self) -> (copy: Vec<String>)
        ensures
            text_rows(copy@) == self.errors_of(),
    {
        let mut copy: Vec<String> = Vec::new();
        let mut i: usize = 0;
        while i < self.errors.len()
            invariant
                i <= self.errors.len(),
                copy@.len() == i,
                forall|k: int| 0 <= k < i ==> copy@[k]@ == self.errors@[k]@,
            decreases self.errors.len() - i,
        {
            copy.push(self.errors[i].clone());
            i += 1;
        }
        assert(text_rows(copy@) =~= text_rows(self.errors@));
        copy
    }
}

/// Whether the items of a batch are, together, larger than the limit.
pub fn exceeds_limit(items: &Vec<Vec<u8>>, max_memory_bytes: Option<u32>) -> (over: bool)
    ensures
        over == over_limit(byte_rows(items@), max_memory_bytes),
{
    let max = match max_memory_bytes {
        Some(max) => max as u64,
        None => {
            return false;
        },
    };
    let ghost rows = byte_rows(items@);
    let mut total: u64 = 0;
    let mut i: usize = 0;
    while i < items.len()
        invariant
            i <= items.len(),
            rows == byte_rows(items@),
            total == total_len(rows.subrange(0, i as int)),
            total <= max,
            max_memory_bytes matches Some(m) && m == max,
        decreases items.len() - i,
    {
        let len = items[i].len();
        proof {
            assert(rows.subrange(0, i + 1).drop_last() =~= rows.subrange(0, i as int));
            assert(rows.subrange(0, i + 1).last() == items@[i as int]@);
            assert(total_len(rows.subrange(0, i + 1)) == total + len);
            lemma_total_len_grows(rows, i + 1);
        }
        if len as u64 > max - total {
            return true;
        }
        total = total + len as u64;
        i += 1;
    }
    assert(rows.subrange(0, i as int) =~= rows);
    false
}

/// The sum of the lengths of a prefix is at most that of the whole.
pub proof fn lemma_total_len_grows(rows: Seq<Seq<u8>>, n: int)
    requires
        0 <= n <= rows.len(),
    ensures
        total_len(rows.subrange(0, n)) <= total_len(rows),
    decreases rows.len() - n,
{
    if n < rows.len() {
        assert(rows.subrange(0, n + 1).drop_last() =~= rows.subrange(0, n));
        lemma_total_len_grows(rows, n + 1);
    } else {
        assert(rows.subrange(0, n) =~= rows);
    }
}

/// Writes the record of a failed item.
pub fn error_record_string(index: usize, message: &str) -> (record: String)
    ensures
        record@ == error_record(index as nat, message@),
{
    let mut record = numbered_string("Item ", index as u64, ": ");
    record.append(message);
    record
}

impl CryptoService {
    /// The outcome of decrypting one item of a batch.
    pub open spec fn decrypt_record(
        &self,
        item: Seq<u8>,
        context: Seq<u8>,
        aad: Option<Seq<u8>>,
    ) -> Result<Seq<u8>, Seq<char>> {
        match self.decrypt_outcome(item, context, aad) {
            Ok(data) => Ok(data),
            Err(code) => Err(CryptoError::standard_message(code)),
        }
    }

    /// The outcomes of decrypting the items of a batch.
    pub open spec fn decrypt_records(
        &self,
        items: Seq<Seq<u8>>,
        context: Seq<u8>,
        aad: Option<Seq<u8>>,
    ) -> Seq<Result<Seq<u8>, Seq<char>>> {
        Seq::new(items.len(), |i: int| self.decrypt_record(items[i], context, aad))
    }

    /// The outcome of encrypting one item of a batch, given what the random
    /// source gave for its nonce.
    pub open spec fn encrypt_record(
        &self,
        nonce: Option<Seq<u8>>,
        item: Seq<u8>,
        context: Seq<u8>,
        aad: Option<Seq<u8>>,
    ) -> Result<Seq<u8>, Seq<char>> {
        match nonce {
            None => Err(CryptoError::standard_message(1023)),
            Some(n) => if CryptoService::sealable(item, context, aad) {
                Ok(self.sealed_frame(n, item, context, aad))
            } else {
                Err(CryptoError::standard_message(1007))
            },
        }
    }

    /// The outcomes of encrypting the items of a batch.
    pub open spec fn encrypt_records(
        &self,
        nonces: Seq<Option<Seq<u8>>>,
        items: Seq<Seq<u8>>,
        context: Seq<u8>,
        aad: Option<Seq<u8>>,
    ) -> Seq<Result<Seq<u8>, Seq<char>>> {
        Seq::new(items.len(), |i: int| self.encrypt_record(nonces[i], items[i], context, aad))
    }

    /// Decrypts every item for the shared `context`. A batch larger than
    /// `max_memory_bytes` is refused before any item is touched; otherwise
    /// every item is processed, whatever becomes of the others.
    pub fn batch_decrypt(
        &self,
        ciphertexts: &Vec<Vec<u8>>,
        context: &[u8],
        aad: Option<&[u8]>,
        max_memory_bytes: Option<u32>,
    ) -> (r: Result<BatchResult, CryptoError>)
        ensures
            r is Err <==> over_limit(byte_rows(ciphertexts@), max_memory_bytes),
            match r {
                Ok(result) => result.successes_of() == batch_successes(
                    self.decrypt_records(byte_rows(ciphertexts@), context@, optional_view(aad)),
                ) && result.errors_of() == batch_errors(
                    self.decrypt_records(byte_rows(ciphertexts@), context@, optional_view(aad)),
                ),
                Err(e) => e.is_standard(1018),
            },
    {
        if exceeds_limit(ciphertexts, max_memory_bytes) {
            return Err(CryptoError::standard(1018));
        }
        let ghost outcomes = self.decrypt_records(
            byte_rows(ciphertexts@),
            context@,
            optional_view(aad),
        );
        let mut successes: Vec<Vec<u8>> = Vec::new();
        let mut errors: Vec<String> = Vec::new();
        let mut i: usize = 0;
        while i < ciphertexts.len()
            invariant
                i <= ciphertexts.len(),
                outcomes == self.decrypt_records(
                    byte_rows(ciphertexts@),
                    context@,
                    optional_view(aad),
                ),
                byte_rows(successes@) == batch_successes(outcomes.subrange(0, i as int)),
                text_rows(errors@) == batch_errors(outcomes.subrange(0, i as int)),
            decreases ciphertexts.len() - i,
        {
            proof {
                assert(outcomes.subrange(0, i + 1).drop_last() =~= outcomes.subrange(0, i as int));
                assert(outcomes.subrange(0, i + 1).last() == self.decrypt_record(
                    ciphertexts@[i as int]@,
                    context@,
                    optional_view(aad),
                ));
            }
            match self.decrypt(ciphertexts[i].as_slice(), context, aad) {
                Ok(plain) => {
                    successes.push(plain);
                    assert(byte_rows(successes@) =~= batch_successes(outcomes.subrange(0, i + 1)));
                },
                Err(e) => {
                    let message = e.message();
                    errors.push(error_record_string(i, message.as_str()));
                    assert(text_rows(errors@) =~= batch_errors(outcomes.subrange(0, i + 1)));
                },
            }
            i += 1;
        }
        assert(outcomes.subrange(0, i as int) =~= outcomes);
        Ok(BatchResult::new(successes, errors))
    }

    /// Encrypts every item for the shared `context`, each under a fresh
    /// random nonce. A batch larger than `max_memory_bytes` is refused
    /// before any item is touched; otherwise every item is processed,
    /// whatever becomes of the others.
    pub fn batch_encrypt(
        &self,
        data_items: &Vec<Vec<u8>>,
        context: &[u8],
        aad: Option<&[u8]>,
        max_memory_bytes: Option<u32>,
    ) -> (r: Result<BatchResult, CryptoError>)
        ensures
            r is Err <==> over_limit(byte_rows(data_items@), max_memory_bytes),
            match r {
                Ok(result) => exists|nonces: Seq<Option<Seq<u8>>>|
                    {
                        &&& nonces.len() == data_items@.len()
                        &&& forall|k: int|
                            0 <= k < nonces.len() && nonces[k] is Some ==> (
                            #[trigger] nonces[k])->Some_0.len() == NONCE_LEN
                        &&& result.successes_of() == batch_successes(
                            #[trigger] self.encrypt_records(
                                nonces,
                                byte_rows(data_items@),
                                context@,
                                optional_view(aad),
                            ),
                        )
                        &&& result.errors_of() == batch_errors(
                            self.encrypt_records(
                                nonces,
                                byte_rows(data_items@),
                                context@,
                                optional_view(aad),
                            ),
                        )
                    },
                Err(e) => e.is_standard(1014),
            },
    {
        if exceeds_limit(data_items, max_memory_bytes) {
            return Err(CryptoError::standard(1014));
        }
        let ghost rows = byte_rows(data_items@);
        let ghost mut nonces: Seq<Option<Seq<u8>>> = Seq::empty();
        let mut successes: Vec<Vec<u8>> = Vec::new();
        let mut errors: Vec<String> = Vec::new();
        let mut i: usize = 0;
        while i < data_items.len()
            invariant
                i <= data_items.len(),
                rows == byte_rows(data_items@),
                nonces.len() == i,
                forall|k: int|
                    0 <= k < nonces.len()
                        && nonces[k] is Some ==> (#[trigger] nonces[k])->Some_0.len()
                        == NONCE_LEN,
                byte_rows(successes@) == batch_successes(
                    self.encrypt_records(
                        nonces,
                        rows.subrange(0, i as int),
                        context@,
                        optional_view(aad),
                    ),
                ),
                text_rows(errors@) == batch_errors(
                    self.encrypt_records(
                        nonces,
                        rows.subrange(0, i as int),
                        context@,
                        optional_view(aad),
                    ),
                ),
            decreases data_items.len() - i,
        {
            let ghost before = self.encrypt_records(
                nonces,
                rows.subrange(0, i as int),
                context@,
                optional_view(aad),
            );
            let ghost item = data_items@[i as int]@;
            let ghost drawn: Option<Seq<u8>>;
            match self.encrypt(data_items[i].as_slice(), context, aad) {
                Ok(out) => {
                    proof {
                        let n = choose|n: Seq<u8>|
                            n.len() == NONCE_LEN && out@ == #[trigger] self.sealed_frame(
                                n,
                                item,
                                context@,
                                optional_view(aad),
                            );
                        drawn = Some(n);
                    }
                    successes.push(out);
                },
                Err(e) => {
                    proof {
                        if e.code_of() == 1023 {
                            drawn = None;
                        } else {
                            drawn = Some(Seq::new(NONCE_LEN as nat, |k: int| 0u8));
                        }
                    }
                    let message = e.message();
                    errors.push(error_record_string(i, message.as_str()));
                },
            }
            proof {
                let after = self.encrypt_records(
                    nonces.push(drawn),
                    rows.subrange(0, i + 1),
                    context@,
                    optional_view(aad),
                );
                assert(after.drop_last() =~= before);
                assert(after.last() == self.encrypt_record(
                    drawn,
                    item,
                    context@,
                    optional_view(aad),
                ));
                assert(byte_rows(successes@) =~= batch_successes(after));
                assert(text_rows(errors@) =~= batch_errors(after));
                nonces = nonces.push(drawn);
            }
            i += 1;
        }
        assert(rows.subrange(0, i as int) =~= rows);
        Ok(BatchResult::new(successes, errors))
    }
}

} // verus!
