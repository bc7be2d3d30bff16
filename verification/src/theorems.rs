//! What holds of the codec as a whole, proved from the definitions of `wire`,
//! `wf` and `parse` in `messages`. Since `serialize` returns the `wire` of a
//! message and `deserialize` returns what `parse` gives, each statement here
//! is one about those two functions.

use crate::ciphersuite::{CipherSuite, NONCE_LEN};
use crate::envelope::parse_envelope;
use crate::errors::{size_error, ProtocolError};
use crate::group::{is_element, is_identity_element, ELEM_LEN};
use crate::key_exchange::{parse_ke1, parse_ke2};
use crate::keypair::{is_valid_public_key, parse_public_key, PK_LEN};
use crate::messages::{
    CredentialFinalizationView, CredentialRequestView, CredentialResponseView,
    RegistrationRequestView, RegistrationResponseView, RegistrationUploadView,
};
use vstd::prelude::*;

verus! {

impl RegistrationRequestView {
    /// Decoding the layout of a well-formed request gives the request back.
    pub proof fn lemma_round_trip(self)
        requires
            self.wf(),
        ensures
            Self::parse(self.wire()) == Ok::<Self, ProtocolError>(self),
    {
    }

    /// Whatever decoding accepts is the layout of the request that it
    /// returns, and that request is well-formed.
    pub proof fn lemma_parse_sound(input: Seq<u8>)
        ensures
            Self::parse(input) matches Ok(v) ==> v.wf() && v.wire() == input,
    {
    }

    /// The layout of a well-formed request has the length of a group
    /// element.
    pub proof fn lemma_wire_len(self)
        requires
            self.wf(),
        ensures
            self.wire().len() == ELEM_LEN,
    {
    }

    /// A buffer of any other length than that of a group element, the empty
    /// one and those that are too long too, is refused with a size error.
    pub proof fn lemma_wrong_length_is_refused(input: Seq<u8>)
        requires
            input.len() != ELEM_LEN,
        ensures
            Self::parse(input) == Err::<Self, ProtocolError>(
                size_error("group_element", ELEM_LEN as int, input.len() as int),
            ),
    {
    }
}

impl RegistrationResponseView {
    /// Decoding the layout of a well-formed answer gives the answer back.
    pub proof fn lemma_round_trip(self)
        requires
            self.wf(),
        ensures
            Self::parse(self.wire()) == Ok::<Self, ProtocolError>(self),
    {
        let input = self.wire();
        assert(input.subrange(0, ELEM_LEN as int) =~= self.evaluation_element);
        assert(input.subrange(ELEM_LEN as int, ELEM_LEN + PK_LEN) =~= self.server_s_pk);
    }

    /// Whatever decoding accepts is the layout of the answer that it
    /// returns, and that answer is well-formed.
    pub proof fn lemma_parse_sound(input: Seq<u8>)
        ensures
            Self::parse(input) matches Ok(v) ==> v.wf() && v.wire() == input,
    {
        if Self::parse(input) is Ok {
            let v = Self::parse(input)->Ok_0;
            assert(v.wire() =~= input);
        }
    }

    /// The layout of a well-formed answer has the length of a group element
    /// and a public key together.
    pub proof fn lemma_wire_len(self)
        requires
            self.wf(),
        ensures
            self.wire().len() == ELEM_LEN + PK_LEN,
    {
    }

    /// A buffer of any other length than that of the two fields is refused
    /// with a size error.
    pub proof fn lemma_wrong_length_is_refused(input: Seq<u8>)
        requires
            input.len() != ELEM_LEN + PK_LEN,
        ensures
            Self::parse(input) == Err::<Self, ProtocolError>(
                size_error("registration_response_bytes", ELEM_LEN + PK_LEN, input.len() as int),
            ),
    {
    }

    /// A buffer of the right length whose key fails the check of public
    /// keys is refused, whatever stands in the place of the evaluation
    /// element.
    pub proof fn lemma_bad_key_is_refused(input: Seq<u8>)
        requires
            input.len() == ELEM_LEN + PK_LEN,
            !is_valid_public_key(input.subrange(ELEM_LEN as int, ELEM_LEN + PK_LEN)),
        ensures
            Self::parse(input) == Err::<Self, ProtocolError>(ProtocolError::PointError),
    {
    }
}

impl RegistrationUploadView {
    /// Decoding the layout of an upload of the ciphersuite gives the upload
    /// back.
    pub proof fn lemma_round_trip(self, cs: CipherSuite)
        requires
            self.wf(cs),
        ensures
            Self::parse(cs, self.wire()) == Ok::<Self, ProtocolError>(self),
    {
        let input = self.wire();
        let prefix = Self::prefix_len(cs);
        assert(input.subrange(0, PK_LEN as int) =~= self.client_s_pk);
        assert(input.subrange(PK_LEN as int, prefix) =~= self.masking_key);
        assert(input.subrange(prefix, input.len() as int) =~= self.envelope);
    }

    /// Whatever decoding accepts is the layout of the upload that it
    /// returns, and that upload is one of the ciphersuite.
    pub proof fn lemma_parse_sound(cs: CipherSuite, input: Seq<u8>)
        ensures
            Self::parse(cs, input) matches Ok(v) ==> v.wf(cs) && v.wire() == input,
    {
        if Self::parse(cs, input) is Ok {
            let v = Self::parse(cs, input)->Ok_0;
            assert(v.wire() =~= input);
        }
    }

    /// The layout of an upload of the ciphersuite has the length of a public
    /// key, a masking key and an envelope together.
    pub proof fn lemma_wire_len(self, cs: CipherSuite)
        requires
            self.wf(cs),
        ensures
            self.wire().len() == PK_LEN + cs.hash_len + cs.envelope_len,
    {
    }

    /// A buffer too short for the key and the masking key is refused with a
    /// size error.
    pub proof fn lemma_too_short_is_refused(cs: CipherSuite, input: Seq<u8>)
        requires
            input.len() < Self::prefix_len(cs),
        ensures
            Self::parse(cs, input) == Err::<Self, ProtocolError>(
                size_error("registration_upload_bytes", Self::prefix_len(cs), input.len() as int),
            ),
    {
    }

    /// In a buffer that is long enough, what follows the masking key is for
    /// the decoder of the envelope to judge, be it empty. Where that decoder
    /// refuses it, its error is the result. Where it accepts, the key
    /// decides: its error is the result, or the upload is made of the three
    /// parts of the buffer.
    pub proof fn lemma_rest_goes_to_envelope(cs: CipherSuite, input: Seq<u8>)
        requires
            input.len() >= Self::prefix_len(cs),
        ensures
            match parse_envelope(cs, input.subrange(Self::prefix_len(cs), input.len() as int)) {
                Err(e) => Self::parse(cs, input) == Err::<Self, ProtocolError>(e),
                Ok(envelope) => match parse_public_key(input.subrange(0, PK_LEN as int)) {
                    Err(e) => Self::parse(cs, input) == Err::<Self, ProtocolError>(e),
                    Ok(client_s_pk) => Self::parse(cs, input) == Ok::<Self, ProtocolError>(
                        RegistrationUploadView {
                            envelope,
                            masking_key: input.subrange(PK_LEN as int, Self::prefix_len(cs)),
                            client_s_pk,
                        },
                    ),
                },
            },
    {
    }

    /// A buffer whose key fails the check of public keys is refused, and
    /// with a point error where the lengths are right.
    pub proof fn lemma_bad_key_is_refused(cs: CipherSuite, input: Seq<u8>)
        requires
            input.len() >= Self::prefix_len(cs),
            !is_valid_public_key(input.subrange(0, PK_LEN as int)),
        ensures
            Self::parse(cs, input) is Err,
            input.len() == Self::prefix_len(cs) + cs.envelope_len ==> Self::parse(cs, input)
                == Err::<Self, ProtocolError>(ProtocolError::PointError),
    {
    }

    /// A stand-in upload has the shape of a genuine one: it is an upload of
    /// the ciphersuite, so its layout is as long as that of every other, and
    /// decoding its layout gives it back.
    pub proof fn lemma_dummy_has_the_shape_of_an_upload(
        cs: CipherSuite,
        fake_public_key: Seq<u8>,
        masking_key: Seq<u8>,
        genuine: Self,
    )
        requires
            is_valid_public_key(fake_public_key),
            masking_key.len() == cs.hash_len,
            genuine.wf(cs),
        ensures
            Self::dummy(cs, fake_public_key, masking_key).wf(cs),
            Self::dummy(cs, fake_public_key, masking_key).wire().len() == genuine.wire().len(),
            Self::parse(cs, Self::dummy(cs, fake_public_key, masking_key).wire()) == Ok::<
                Self,
                ProtocolError,
            >(Self::dummy(cs, fake_public_key, masking_key)),
    {
        Self::dummy(cs, fake_public_key, masking_key).lemma_round_trip(cs);
    }

    /// Two stand-in uploads of one server differ in nothing but the masking
    /// key: the key of the client and the envelope are the same in both.
    pub proof fn lemma_dummies_share_key_and_envelope(
        cs: CipherSuite,
        fake_public_key: Seq<u8>,
        masking_key: Seq<u8>,
        other_masking_key: Seq<u8>,
    )
        ensures
            Self::dummy(cs, fake_public_key, masking_key).client_s_pk == fake_public_key,
            Self::dummy(cs, fake_public_key, masking_key).client_s_pk == Self::dummy(
                cs,
                fake_public_key,
                other_masking_key,
            ).client_s_pk,
            Self::dummy(cs, fake_public_key, masking_key).envelope == Self::dummy(
                cs,
                fake_public_key,
                other_masking_key,
            ).envelope,
    {
    }
}

impl CredentialRequestView {
    /// Decoding the layout of a request of the ciphersuite gives the request
    /// back.
    pub proof fn lemma_round_trip(self, cs: CipherSuite)
        requires
            self.wf(cs),
        ensures
            Self::parse(cs, self.wire()) == Ok::<Self, ProtocolError>(self),
    {
        let input = self.wire();
        assert(input.subrange(0, ELEM_LEN as int) =~= self.blinded_element);
        assert(input.subrange(ELEM_LEN as int, input.len() as int) =~= self.ke1_message);
    }

    /// Whatever decoding accepts is the layout of the request that it
    /// returns, and that request is one of the ciphersuite.
    pub proof fn lemma_parse_sound(cs: CipherSuite, input: Seq<u8>)
        ensures
            Self::parse(cs, input) matches Ok(v) ==> v.wf(cs) && v.wire() == input,
    {
        if Self::parse(cs, input) is Ok {
            let v = Self::parse(cs, input)->Ok_0;
            assert(v.wire() =~= input);
        }
    }

    /// The layout of a request of the ciphersuite has the length of a group
    /// element and a first key-exchange message together.
    pub proof fn lemma_wire_len(self, cs: CipherSuite)
        requires
            self.wf(cs),
        ensures
            self.wire().len() == ELEM_LEN + cs.ke1_len,
    {
    }

    /// A buffer too short for the blinded element is refused with a size
    /// error.
    pub proof fn lemma_too_short_is_refused(cs: CipherSuite, input: Seq<u8>)
        requires
            input.len() < ELEM_LEN,
        ensures
            Self::parse(cs, input) == Err::<Self, ProtocolError>(
                size_error("login_first_message_bytes", ELEM_LEN as int, input.len() as int),
            ),
    {
    }

    /// A buffer that starts with the encoding of the identity is refused as
    /// such, whatever follows.
    pub proof fn lemma_identity_is_refused(cs: CipherSuite, input: Seq<u8>)
        requires
            input.len() >= ELEM_LEN,
            is_identity_element(input.subrange(0, ELEM_LEN as int)),
        ensures
            Self::parse(cs, input) == Err::<Self, ProtocolError>(
                ProtocolError::IdentityGroupElementError,
            ),
    {
    }

    /// Behind a blinded element that is accepted, what follows is for the
    /// decoder of the key-exchange message to judge, be it empty: the buffer
    /// is accepted where that decoder accepts, and refused with its error
    /// where it refuses.
    pub proof fn lemma_rest_goes_to_key_exchange(cs: CipherSuite, input: Seq<u8>)
        requires
            input.len() >= ELEM_LEN,
            is_element(input.subrange(0, ELEM_LEN as int)),
            !is_identity_element(input.subrange(0, ELEM_LEN as int)),
        ensures
            match parse_ke1(cs, input.subrange(ELEM_LEN as int, input.len() as int)) {
                Err(e) => Self::parse(cs, input) == Err::<Self, ProtocolError>(e),
                Ok(ke1_message) => Self::parse(cs, input) == Ok::<Self, ProtocolError>(
                    CredentialRequestView {
                        blinded_element: input.subrange(0, ELEM_LEN as int),
                        ke1_message,
                    },
                ),
            },
    {
    }
}

impl CredentialResponseView {
    /// Decoding the layout of an answer of the ciphersuite gives the answer
    /// back.
    pub proof fn lemma_round_trip(self, cs: CipherSuite)
        requires
            self.wf(cs),
        ensures
            Self::parse(cs, self.wire()) == Ok::<Self, ProtocolError>(self),
    {
        let input = self.wire();
        let prefix = Self::prefix_len(cs);
        assert(input.subrange(0, ELEM_LEN as int) =~= self.evaluation_element);
        assert(input.subrange(ELEM_LEN as int, ELEM_LEN + NONCE_LEN) =~= self.masking_nonce);
        assert(input.subrange(ELEM_LEN + NONCE_LEN, prefix) =~= self.masked_response);
        assert(input.subrange(prefix, input.len() as int) =~= self.ke2_message);
    }

    /// Whatever decoding accepts is the layout of the answer that it
    /// returns, and that answer is one of the ciphersuite.
    pub proof fn lemma_parse_sound(cs: CipherSuite, input: Seq<u8>)
        ensures
            Self::parse(cs, input) matches Ok(v) ==> v.wf(cs) && v.wire() == input,
    {
        if Self::parse(cs, input) is Ok {
            let v = Self::parse(cs, input)->Ok_0;
            assert(v.wire() =~= input);
        }
    }

    /// The layout of an answer of the ciphersuite has the length of its
    /// four fields together.
    pub proof fn lemma_wire_len(self, cs: CipherSuite)
        requires
            self.wf(cs),
        ensures
            self.wire().len() == ELEM_LEN + NONCE_LEN + PK_LEN + cs.envelope_len + cs.ke2_len,
    {
    }

    /// A buffer shorter than a whole answer is refused with a size error.
    pub proof fn lemma_too_short_is_refused(cs: CipherSuite, input: Seq<u8>)
        requires
            input.len() < Self::prefix_len(cs) + cs.ke2_len,
        ensures
            Self::parse(cs, input) == Err::<Self, ProtocolError>(
                size_error(
                    "credential_response_bytes",
                    Self::prefix_len(cs) + cs.ke2_len,
                    input.len() as int,
                ),
            ),
    {
    }

    /// A buffer that starts with the encoding of the identity is refused as
    /// such, whatever follows.
    pub proof fn lemma_identity_is_refused(cs: CipherSuite, input: Seq<u8>)
        requires
            input.len() >= Self::prefix_len(cs) + cs.ke2_len,
            is_identity_element(input.subrange(0, ELEM_LEN as int)),
        ensures
            Self::parse(cs, input) == Err::<Self, ProtocolError>(
                ProtocolError::IdentityGroupElementError,
            ),
    {
    }

    /// Behind an evaluation element that is accepted, what follows the
    /// masked response is for the decoder of the key-exchange message to
    /// judge: the buffer is accepted where that decoder accepts, and refused
    /// with its error where it refuses.
    pub proof fn lemma_rest_goes_to_key_exchange(cs: CipherSuite, input: Seq<u8>)
        requires
            input.len() >= Self::prefix_len(cs) + cs.ke2_len,
            is_element(input.subrange(0, ELEM_LEN as int)),
            !is_identity_element(input.subrange(0, ELEM_LEN as int)),
        ensures
            match parse_ke2(cs, input.subrange(Self::prefix_len(cs), input.len() as int)) {
                Err(e) => Self::parse(cs, input) == Err::<Self, ProtocolError>(e),
                Ok(ke2_message) => Self::parse(cs, input) == Ok::<Self, ProtocolError>(
                    CredentialResponseView {
                        evaluation_element: input.subrange(0, ELEM_LEN as int),
                        masking_nonce: input.subrange(ELEM_LEN as int, ELEM_LEN + NONCE_LEN),
                        masked_response: input.subrange(
                            ELEM_LEN + NONCE_LEN,
                            Self::prefix_len(cs),
                        ),
                        ke2_message,
                    },
                ),
            },
    {
    }
}

impl CredentialFinalizationView {
    /// Decoding the layout of a message of the ciphersuite gives the
    /// message back.
    pub proof fn lemma_round_trip(self, cs: CipherSuite)
        requires
            self.wf(cs),
        ensures
            Self::parse(cs, self.wire()) == Ok::<Self, ProtocolError>(self),
    {
    }

    /// Whatever decoding accepts is the layout of the message that it
    /// returns, and that message is one of the ciphersuite.
    pub proof fn lemma_parse_sound(cs: CipherSuite, input: Seq<u8>)
        ensures
            Self::parse(cs, input) matches Ok(v) ==> v.wf(cs) && v.wire() == input,
    {
    }

    /// The layout of a message of the ciphersuite has the length of a third
    /// key-exchange message.
    pub proof fn lemma_wire_len(self, cs: CipherSuite)
        requires
            self.wf(cs),
        ensures
            self.wire().len() == cs.ke3_len,
    {
    }

    /// A buffer of any other length than that of the key-exchange message,
    /// the empty one and those that are too long too, is refused with a size
    /// error.
    pub proof fn lemma_wrong_length_is_refused(cs: CipherSuite, input: Seq<u8>)
        requires
            input.len() != cs.ke3_len,
        ensures
            Self::parse(cs, input) == Err::<Self, ProtocolError>(
                size_error("ke3_message", cs.ke3_len as int, input.len() as int),
            ),
    {
    }
}

} // verus!
