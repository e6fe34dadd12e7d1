//! The incremental detokenizer: ids go in one at a time, whole-text
//! fragments come out. The tokenizer is outside code; what each of its
//! calls returns is named (it depends on the tokenizer value and the
//! arguments alone), and against those names the stream's contracts say
//! exactly when a fragment is owed and what it holds: every fragment
//! extends the emitted text, and once a flush finds the fresh decode
//! extending what was emitted, the concatenation of every fragment is the
//! batch decode of the full id sequence. Fragments are `String`s, so none
//! carries invalid UTF-8.
use vstd::prelude::*;
use crate::text::{is_prefix_of, str_starts_with};

verus! {

#[verifier::external_type_specification]
#[verifier::external_body]
pub struct ExTokenizer(tokenizers::Tokenizer);

/// What `tokenizers::Tokenizer::decode` returns for a tokenizer and an id
/// sequence: a function of the two alone.
pub uninterp spec fn decode_of(t: tokenizers::Tokenizer, ids: Seq<u32>) -> Seq<char>;

/// Whether `tokenizers::Tokenizer::decode` succeeds for a tokenizer and an
/// id sequence: like its result, a function of the two alone.
pub uninterp spec fn decode_ok(t: tokenizers::Tokenizer, ids: Seq<u32>) -> bool;

/// What `tokenizers::Tokenizer::token_to_id` returns for a tokenizer and a
/// token string: a function of the two alone.
pub uninterp spec fn token_id_of(t: tokenizers::Tokenizer, token: Seq<char>) -> Option<u32>;

/// What `char::is_alphanumeric` returns: a function of the character.
pub uninterp spec fn is_alphanum(c: char) -> bool;

/// Batch-decode a whole id sequence, skipping special tokens.
/// Relies on `tokenizers::Tokenizer::decode`: deterministic in the
/// tokenizer and the ids, in its success as in its text; the text itself
/// is not modeled.
#[verifier::external_body]
fn decode_ids(t: &tokenizers::Tokenizer, ids: &Vec<u32>) -> (r: Result<String, String>)
    ensures
        r is Ok <==> decode_ok(*t, ids@),
        r matches Ok(s) ==> s@ == decode_of(*t, ids@),
{
    t.decode(ids.as_slice(), true).map_err(|e| e.to_string())
}

/// Encode a text to its id sequence.
/// Relies on `tokenizers::Tokenizer::encode` and `Encoding::get_ids`.
/// Nothing is promised of the ids: a tokenizer whose model carries BPE
/// dropout or Unigram sampling draws from a thread generator while
/// encoding, so two calls on the same text may differ. Everything the
/// library proves takes the ids as given.
#[verifier::external_body]
pub fn encode_ids(t: &tokenizers::Tokenizer, text: &str, add_special_tokens: bool) -> (r: Result<
    Vec<u32>,
    String,
>)
{
    t.encode(text, add_special_tokens).map(|e| e.get_ids().to_vec()).map_err(|e| e.to_string())
}

/// Resolve a token string to its id.
/// Relies on `tokenizers::Tokenizer::token_to_id`: deterministic in the
/// tokenizer and the token.
#[verifier::external_body]
pub fn lookup_token(t: &tokenizers::Tokenizer, token: &str) -> (r: Option<u32>)
    ensures
        r == token_id_of(*t, token@),
{
    t.token_to_id(token)
}

/// Whether a character is alphanumeric, the boundary heuristic under which
/// a decoded extension is safe to emit.
/// Relies on `char::is_alphanumeric`: deterministic in the character.
#[verifier::external_body]
fn is_alphanumeric_char(c: char) -> (r: bool)
    ensures
        r == is_alphanum(c),
{
    c.is_alphanumeric()
}

/// The concatenation of a sequence of fragments.
pub open spec fn concat_seqs(s: Seq<Seq<char>>) -> Seq<char>
    decreases s.len(),
{
    if s.len() == 0 {
        Seq::empty()
    } else {
        concat_seqs(s.drop_last()) + s.last()
    }
}

/// The fragment a push emits, if any: when the fresh decode `full` extends
/// the emitted text and ends at a safe boundary, exactly the extension.
pub open spec fn spec_emission(full: Seq<char>, emitted: Seq<char>) -> Option<Seq<char>> {
    if is_prefix_of(emitted, full) && full.len() > emitted.len() && is_alphanum(full.last()) {
        Some(full.subrange(emitted.len() as int, full.len() as int))
    } else {
        None
    }
}

/// Incremental detokenizer over an opaque tokenizer.
pub struct TokenOutputStream {
    pub tokenizer: tokenizers::Tokenizer,
    /// Every id pushed so far.
    pub tokens: Vec<u32>,
    /// The concatenation of every fragment emitted so far.
    pub emitted: String,
    /// The fragments emitted so far.
    pub frags: Ghost<Seq<Seq<char>>>,
    /// Whether `emitted` is known to equal the batch decode of `tokens`.
    pub synced: Ghost<bool>,
}

impl TokenOutputStream {
    /// The emitted text is the concatenation of the emitted fragments, and
    /// a synced stream has emitted exactly the batch decode of its ids.
    pub open spec fn wf(self) -> bool {
        &&& self.emitted@ == concat_seqs(self.frags@)
        &&& self.synced@ ==> self.emitted@ == decode_of(self.tokenizer, self.tokens@)
    }

    /// Wrap a tokenizer in a fresh stream.
    pub fn new(tokenizer: tokenizers::Tokenizer) -> (r: Self)
        ensures
            r.wf(),
            r.tokens@.len() == 0,
            r.emitted@.len() == 0,
            r.frags@.len() == 0,
    {
        let r = TokenOutputStream {
            tokenizer,
            tokens: Vec::new(),
            emitted: String::new(),
            frags: Ghost(Seq::empty()),
            synced: Ghost(false),
        };
        proof {
            assert(concat_seqs(r.frags@) =~= Seq::<char>::empty());
        }
        r
    }

    /// The wrapped tokenizer, for encoding and id lookups.
    pub fn tokenizer(&self) -> (r: &tokenizers::Tokenizer)
        ensures
            *r == self.tokenizer,
    {
        &self.tokenizer
    }

    /// Resolve a special token such as the end-of-sequence marker.
    pub fn get_token(&self, token: &str) -> (r: Option<u32>)
        ensures
            r == token_id_of(self.tokenizer, token@),
    {
        lookup_token(&self.tokenizer, token)
    }

    /// Forget all stream state; called once per request.
    pub fn clear(&mut self)
        ensures
            final(self).wf(),
            final(self).tokenizer == old(self).tokenizer,
            final(self).tokens@.len() == 0,
            final(self).emitted@.len() == 0,
            final(self).frags@.len() == 0,
    {
        self.tokens.clear();
        self.emitted = String::new();
        self.frags = Ghost(Seq::empty());
        self.synced = Ghost(false);
        proof {
            assert(concat_seqs(self.frags@) =~= Seq::<char>::empty());
        }
    }

    /// Push one id. When the decode succeeds, a fragment is owed exactly
    /// when the fresh batch decode extends the emitted text and ends at a
    /// safe boundary, and it is exactly that extension; otherwise the id is
    /// buffered silently.
    pub fn next_token(&mut self, token: u32) -> (r: Result<Option<String>, String>)
        requires
            old(self).wf(),
            old(self).tokens@.len() < usize::MAX,
        ensures
            final(self).wf(),
            final(self).tokenizer == old(self).tokenizer,
            final(self).tokens@ == old(self).tokens@.push(token),
            r is Ok <==> decode_ok(old(self).tokenizer, old(self).tokens@.push(token)),
            r matches Ok(o) ==> {
                let full = decode_of(old(self).tokenizer, old(self).tokens@.push(token));
                &&& (spec_emission(full, old(self).emitted@) matches Some(frag)
                    ==> (o matches Some(f) && f@ == frag
                        && final(self).frags@ == old(self).frags@.push(frag)
                        && final(self).emitted@ == full && final(self).synced@))
                &&& (spec_emission(full, old(self).emitted@) is None
                    ==> o is None && final(self).frags@ == old(self).frags@
                        && final(self).emitted@ == old(self).emitted@)
            },
            r is Err ==> final(self).frags@ == old(self).frags@ && final(self).emitted@ == old(
                self,
            ).emitted@,
    {
        self.tokens.push(token);
        self.synced = Ghost(false);
        let full = match decode_ids(&self.tokenizer, &self.tokens) {
            Ok(s) => s,
            Err(e) => {
                return Err(e);
            },
        };
        let ghost full_spec = decode_of(self.tokenizer, self.tokens@);
        let emitted_len = self.emitted.as_str().unicode_len();
        let full_len = full.as_str().unicode_len();
        if full_len > emitted_len && str_starts_with(full.as_str(), self.emitted.as_str()) {
            let last = full.as_str().get_char(full_len - 1);
            if is_alphanumeric_char(last) {
                proof {
                    assert(spec_emission(full_spec, self.emitted@) matches Some(frag) && frag
                        == full_spec.subrange(self.emitted@.len() as int, full_spec.len() as int));
                }
                let frag_str = full.as_str().substring_char(emitted_len, full_len);
                let frag = String::from_str(frag_str);
                self.emitted.append(frag.as_str());
                self.synced = Ghost(true);
                proof {
                    self.frags@ = self.frags@.push(frag@);
                    assert(concat_seqs(self.frags@) == concat_seqs(self.frags@.drop_last())
                        + self.frags@.last());
                    assert(self.frags@.drop_last() =~= old(self).frags@);
                    assert(self.emitted@ =~= full_spec);
                }
                return Ok(Some(frag));
            }
        }
        proof {
            assert(spec_emission(full_spec, self.emitted@) is None);
        }
        Ok(None)
    }

    /// Flush: decode everything and, whenever the batch decode extends what
    /// was emitted, emit the remainder and sync the stream — everything it
    /// ever emitted, concatenated, is then the batch decode of its ids. The
    /// stream stays unsynced only if the decoder rewrote already-emitted
    /// text, in which case nothing safe remains to emit.
    pub fn decode_rest(&mut self) -> (r: Result<Option<String>, String>)
        requires
            old(self).wf(),
        ensures
            final(self).wf(),
            final(self).tokenizer == old(self).tokenizer,
            final(self).tokens@ == old(self).tokens@,
            r is Ok <==> decode_ok(old(self).tokenizer, old(self).tokens@),
            r matches Ok(o) ==> {
                let full = decode_of(old(self).tokenizer, old(self).tokens@);
                &&& (final(self).synced@ <==> is_prefix_of(old(self).emitted@, full))
                &&& (final(self).synced@ ==> final(self).emitted@ == full)
                &&& (is_prefix_of(old(self).emitted@, full) && full.len()
                    > old(self).emitted@.len()
                    ==> (o matches Some(f) && f@ == full.subrange(
                        old(self).emitted@.len() as int,
                        full.len() as int,
                    ) && final(self).frags@ == old(self).frags@.push(f@)))
                &&& (!(is_prefix_of(old(self).emitted@, full) && full.len()
                    > old(self).emitted@.len())
                    ==> o is None && final(self).frags@ == old(self).frags@
                        && final(self).emitted@ == old(self).emitted@)
            },
            r is Err ==> final(self).frags@ == old(self).frags@ && final(self).emitted@ == old(
                self,
            ).emitted@,
    {
        let full = match decode_ids(&self.tokenizer, &self.tokens) {
            Ok(s) => s,
            Err(e) => {
                self.synced = Ghost(false);
                return Err(e);
            },
        };
        let ghost full_spec = decode_of(self.tokenizer, self.tokens@);
        let emitted_len = self.emitted.as_str().unicode_len();
        let full_len = full.as_str().unicode_len();
        if str_starts_with(full.as_str(), self.emitted.as_str()) {
            if full_len > emitted_len {
                let frag_str = full.as_str().substring_char(emitted_len, full_len);
                let frag = String::from_str(frag_str);
                self.emitted.append(frag.as_str());
                self.synced = Ghost(true);
                proof {
                    self.frags@ = self.frags@.push(frag@);
                    assert(self.frags@.drop_last() =~= old(self).frags@);
                    assert(self.emitted@ =~= full_spec);
                }
                Ok(Some(frag))
            } else {
                self.synced = Ghost(true);
                proof {
                    assert(self.emitted@ =~= full_spec);
                }
                Ok(None)
            }
        } else {
            self.synced = Ghost(false);
            Ok(None)
        }
    }

    /// Decode the whole id sequence at once.
    pub fn decode_all(&self) -> (r: Result<String, String>)
        ensures
            r is Ok <==> decode_ok(self.tokenizer, self.tokens@),
            r matches Ok(s) ==> s@ == decode_of(self.tokenizer, self.tokens@),
    {
        decode_ids(&self.tokenizer, &self.tokens)
    }
}

/// Stream fidelity: a synced stream — one whose latest push emitted, or
/// whose flush found the fresh decode extending the emitted text — has
/// emitted, in order, fragments whose concatenation is exactly the
/// tokenizer's batch decode of the full id sequence.
pub proof fn lemma_stream_fidelity(s: TokenOutputStream)
    requires
        s.wf(),
        s.synced@,
    ensures
        concat_seqs(s.frags@) == decode_of(s.tokenizer, s.tokens@),
{
}

} // verus!
