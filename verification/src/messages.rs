//! The six messages that cross the wire: three to register, three to log in.
//!
//! A message is laid out as its fields one after the other, with no length
//! prefix, tag or padding between them: the lengths come from the
//! ciphersuite. Each message type has a view, which holds every field by its
//! bytes. On a view, `wire` is the layout, `wf` says that the message is one
//! of the ciphersuite, and `parse` is what decoding makes of a buffer.

use crate::ciphersuite::{CipherSuite, NONCE_LEN};
use crate::envelope::{parse_envelope, zero_bytes, zeros, Envelope};
use crate::errors::{check_slice_size, check_slice_size_atleast, size_error, ProtocolError};
use crate::group::{is_element, is_identity_element, parse_element, GroupElement, ELEM_LEN};
use crate::key_exchange::{
    ke2_message_size, parse_ke1, parse_ke2, parse_ke3, KE1Message, KE2Message, KE3Message,
};
use crate::keypair::{is_valid_public_key, parse_public_key, KeyPair, PublicKey, PK_LEN};
use crate::random::try_fill_random;
use crate::server_setup::ServerSetup;
use rand::{CryptoRng, RngCore};
use vstd::prelude::*;
use vstd::slice::slice_to_vec;

verus! {

/// The message sent by the client to the server, to initiate registration.
#[derive(Debug, PartialEq, Eq, Hash)]
pub struct RegistrationRequest {
    /// The blinded password.
    pub blinded_element: GroupElement,
}

/// The answer sent by the server to the client, upon reception of the
/// registration attempt.
#[derive(Debug, PartialEq, Eq, Hash)]
pub struct RegistrationResponse {
    /// The output of the OPRF on the client's blinded element.
    pub evaluation_element: GroupElement,
    /// The static public key of the server.
    pub server_s_pk: PublicKey,
}

/// The final message of a registration, from the client: what the server
/// is to store for the account.
#[derive(Debug, PartialEq, Eq, Hash)]
pub struct RegistrationUpload {
    /// The envelope sealed by the client.
    pub envelope: Envelope,
    /// The key under which the server masks its answer to a login.
    pub masking_key: Vec<u8>,
    /// The static public key of the client.
    pub client_s_pk: PublicKey,
}

/// The message sent by the client to the server, to initiate a login.
#[derive(Debug, PartialEq, Eq, Hash)]
pub struct CredentialRequest {
    /// The blinded password.
    pub blinded_element: GroupElement,
    /// The first message of the key exchange.
    pub ke1_message: KE1Message,
}

/// The answer sent by the server to the client, upon reception of the login
/// attempt.
#[derive(Debug, PartialEq, Eq, Hash)]
pub struct CredentialResponse {
    /// The output of the OPRF on the client's blinded element.
    pub evaluation_element: GroupElement,
    /// The nonce under which the response is masked.
    pub masking_nonce: Vec<u8>,
    /// The server's public key and the envelope, masked.
    pub masked_response: Vec<u8>,
    /// The second message of the key exchange.
    pub ke2_message: KE2Message,
}

/// The message sent by the client to the server to end a login.
#[derive(Debug, PartialEq, Eq, Hash)]
pub struct CredentialFinalization {
    /// The third message of the key exchange.
    pub ke3_message: KE3Message,
}

/// A `RegistrationRequest` with its field as bytes.
pub struct RegistrationRequestView {
    pub blinded_element: Seq<u8>,
}

/// A `RegistrationResponse` with every field as bytes.
pub struct RegistrationResponseView {
    pub evaluation_element: Seq<u8>,
    pub server_s_pk: Seq<u8>,
}

/// A `RegistrationUpload` with every field as bytes.
pub struct RegistrationUploadView {
    pub envelope: Seq<u8>,
    pub masking_key: Seq<u8>,
    pub client_s_pk: Seq<u8>,
}

/// A `CredentialRequest` with every field as bytes.
pub struct CredentialRequestView {
    pub blinded_element: Seq<u8>,
    pub ke1_message: Seq<u8>,
}

/// A `CredentialResponse` with every field as bytes.
pub struct CredentialResponseView {
    pub evaluation_element: Seq<u8>,
    pub masking_nonce: Seq<u8>,
    pub masked_response: Seq<u8>,
    pub ke2_message: Seq<u8>,
}

/// A `CredentialFinalization` with its field as bytes.
pub struct CredentialFinalizationView {
    pub ke3_message: Seq<u8>,
}

impl View for RegistrationRequest {
    type V = RegistrationRequestView;

    open spec fn view(&self) -> RegistrationRequestView {
        RegistrationRequestView { blinded_element: self.blinded_element@ }
    }
}

impl View for RegistrationResponse {
    type V = RegistrationResponseView;

    open spec fn view(&self) -> RegistrationResponseView {
        RegistrationResponseView {
            evaluation_element: self.evaluation_element@,
            server_s_pk: self.server_s_pk@,
        }
    }
}

impl View for RegistrationUpload {
    type V = RegistrationUploadView;

    open spec fn view(&self) -> RegistrationUploadView {
        RegistrationUploadView {
            envelope: self.envelope@,
            masking_key: self.masking_key@,
            client_s_pk: self.client_s_pk@,
        }
    }
}

impl View for CredentialRequest {
    type V = CredentialRequestView;

    open spec fn view(&self) -> CredentialRequestView {
        CredentialRequestView {
            blinded_element: self.blinded_element@,
            ke1_message: self.ke1_message@,
        }
    }
}

impl View for CredentialResponse {
    type V = CredentialResponseView;

    open spec fn view(&self) -> CredentialResponseView {
        CredentialResponseView {
            evaluation_element: self.evaluation_element@,
            masking_nonce: self.masking_nonce@,
            masked_response: self.masked_response@,
            ke2_message: self.ke2_message@,
        }
    }
}

impl View for CredentialFinalization {
    type V = CredentialFinalizationView;

    open spec fn view(&self) -> CredentialFinalizationView {
        CredentialFinalizationView { ke3_message: self.ke3_message@ }
    }
}

impl RegistrationRequestView {
    /// The layout on the wire.
    pub open spec fn wire(self) -> Seq<u8> {
        self.blinded_element
    }

    /// The blinded element is an element of the group. The identity is not
    /// ruled out in a registration.
    pub open spec fn wf(self) -> bool {
        is_element(self.blinded_element)
    }

    /// What decoding makes of `input`: the whole of it is the blinded
    /// element.
    pub open spec fn parse(input: Seq<u8>) -> Result<Self, ProtocolError> {
        match parse_element(input) {
            Err(e) => Err(e),
            Ok(blinded_element) => Ok(RegistrationRequestView { blinded_element }),
        }
    }
}

impl RegistrationResponseView {
    /// The layout on the wire.
    pub open spec fn wire(self) -> Seq<u8> {
        self.evaluation_element + self.server_s_pk
    }

    /// The evaluation element is an element of the group, and the server's
    /// key passes the check of public keys. The identity is not ruled out as
    /// evaluation element in a registration.
    pub open spec fn wf(self) -> bool {
        &&& is_element(self.evaluation_element)
        &&& is_valid_public_key(self.server_s_pk)
    }

    /// What decoding makes of `input`. A buffer of another length than that
    /// of the two fields is refused first, then a key that fails the check,
    /// then an evaluation element that does not decode.
    pub open spec fn parse(input: Seq<u8>) -> Result<Self, ProtocolError> {
        if input.len() != ELEM_LEN + PK_LEN {
            Err(size_error("registration_response_bytes", ELEM_LEN + PK_LEN, input.len() as int))
        } else {
            match parse_public_key(input.subrange(ELEM_LEN as int, ELEM_LEN + PK_LEN)) {
                Err(e) => Err(e),
                Ok(server_s_pk) => match parse_element(input.subrange(0, ELEM_LEN as int)) {
                    Err(e) => Err(e),
                    Ok(evaluation_element) => Ok(
                        RegistrationResponseView { evaluation_element, server_s_pk },
                    ),
                },
            }
        }
    }
}

impl RegistrationUploadView {
    /// The layout on the wire.
    pub open spec fn wire(self) -> Seq<u8> {
        self.client_s_pk + self.masking_key + self.envelope
    }

    /// The client's key passes the check of public keys, and the masking key
    /// and the envelope have the lengths that the ciphersuite gives them.
    pub open spec fn wf(self, cs: CipherSuite) -> bool {
        &&& is_valid_public_key(self.client_s_pk)
        &&& self.masking_key.len() == cs.hash_len
        &&& self.envelope.len() == cs.envelope_len
    }

    /// The length of what stands before the envelope.
    pub open spec fn prefix_len(cs: CipherSuite) -> int {
        PK_LEN + cs.hash_len
    }

    /// What decoding makes of `input`. A buffer too short for the key and
    /// the masking key is refused first. What follows the two goes to the
    /// decoder of the envelope, whose refusal is passed on. The key is
    /// checked last.
    pub open spec fn parse(cs: CipherSuite, input: Seq<u8>) -> Result<Self, ProtocolError> {
        let prefix = Self::prefix_len(cs);
        if input.len() < prefix {
            Err(size_error("registration_upload_bytes", prefix, input.len() as int))
        } else {
            match parse_envelope(cs, input.subrange(prefix, input.len() as int)) {
                Err(e) => Err(e),
                Ok(envelope) => match parse_public_key(input.subrange(0, PK_LEN as int)) {
                    Err(e) => Err(e),
                    Ok(client_s_pk) => Ok(
                        RegistrationUploadView {
                            envelope,
                            masking_key: input.subrange(PK_LEN as int, prefix),
                            client_s_pk,
                        },
                    ),
                },
            }
        }
    }

    /// The upload that stands in for that of an account that does not
    /// exist: a zero envelope of the length of a real one, the given masking
    /// key, and the public key of the server's stand-in key pair.
    pub open spec fn dummy(
        cs: CipherSuite,
        fake_public_key: Seq<u8>,
        masking_key: Seq<u8>,
    ) -> Self {
        RegistrationUploadView {
            envelope: zeros(cs.envelope_len as nat),
            masking_key,
            client_s_pk: fake_public_key,
        }
    }
}

impl CredentialRequestView {
    /// The layout on the wire.
    pub open spec fn wire(self) -> Seq<u8> {
        self.blinded_element + self.ke1_message
    }

    /// The blinded element is an element of the group other than the
    /// identity, and the key-exchange message has the length that the
    /// ciphersuite gives it.
    pub open spec fn wf(self, cs: CipherSuite) -> bool {
        &&& is_element(self.blinded_element)
        &&& !is_identity_element(self.blinded_element)
        &&& self.ke1_message.len() == cs.ke1_len
    }

    /// What decoding makes of `input`. A buffer too short for the blinded
    /// element is refused first, then a blinded element that does not
    /// decode, then one that is the identity. What follows the element goes
    /// to the decoder of the key-exchange message, whose refusal is passed
    /// on.
    pub open spec fn parse(cs: CipherSuite, input: Seq<u8>) -> Result<Self, ProtocolError> {
        if input.len() < ELEM_LEN {
            Err(size_error("login_first_message_bytes", ELEM_LEN as int, input.len() as int))
        } else {
            match parse_element(input.subrange(0, ELEM_LEN as int)) {
                Err(e) => Err(e),
                Ok(blinded_element) => if is_identity_element(blinded_element) {
                    Err(ProtocolError::IdentityGroupElementError)
                } else {
                    match parse_ke1(cs, input.subrange(ELEM_LEN as int, input.len() as int)) {
                        Err(e) => Err(e),
                        Ok(ke1_message) => Ok(
                            CredentialRequestView { blinded_element, ke1_message },
                        ),
                    }
                },
            }
        }
    }
}

impl CredentialResponseView {
    /// The layout on the wire.
    pub open spec fn wire(self) -> Seq<u8> {
        self.evaluation_element + self.masking_nonce + self.masked_response + self.ke2_message
    }

    /// The evaluation element is an element of the group other than the
    /// identity, and the other fields have the lengths that the ciphersuite
    /// gives them.
    pub open spec fn wf(self, cs: CipherSuite) -> bool {
        &&& is_element(self.evaluation_element)
        &&& !is_identity_element(self.evaluation_element)
        &&& self.masking_nonce.len() == NONCE_LEN
        &&& self.masked_response.len() == PK_LEN + cs.envelope_len
        &&& self.ke2_message.len() == cs.ke2_len
    }

    /// The length of what stands before the key-exchange message.
    pub open spec fn prefix_len(cs: CipherSuite) -> int {
        ELEM_LEN + NONCE_LEN + PK_LEN + cs.envelope_len
    }

    /// What decoding makes of `input`. A buffer shorter than a whole message
    /// is refused first, then an evaluation element that does not decode,
    /// then one that is the identity. What follows the masked response goes
    /// to the decoder of the key-exchange message, whose refusal is passed
    /// on.
    pub open spec fn parse(cs: CipherSuite, input: Seq<u8>) -> Result<Self, ProtocolError> {
        let prefix = Self::prefix_len(cs);
        if input.len() < prefix + cs.ke2_len {
            Err(size_error("credential_response_bytes", prefix + cs.ke2_len, input.len() as int))
        } else {
            match parse_element(input.subrange(0, ELEM_LEN as int)) {
                Err(e) => Err(e),
                Ok(evaluation_element) => if is_identity_element(evaluation_element) {
                    Err(ProtocolError::IdentityGroupElementError)
                } else {
                    match parse_ke2(cs, input.subrange(prefix, input.len() as int)) {
                        Err(e) => Err(e),
                        Ok(ke2_message) => Ok(
                            CredentialResponseView {
                                evaluation_element,
                                masking_nonce: input.subrange(
                                    ELEM_LEN as int,
                                    ELEM_LEN + NONCE_LEN,
                                ),
                                masked_response: input.subrange(ELEM_LEN + NONCE_LEN, prefix),
                                ke2_message,
                            },
                        ),
                    }
                },
            }
        }
    }
}

impl CredentialFinalizationView {
    /// The layout on the wire.
    pub open spec fn wire(self) -> Seq<u8> {
        self.ke3_message
    }

    /// The key-exchange message has the length that the ciphersuite gives
    /// it.
    pub open spec fn wf(self, cs: CipherSuite) -> bool {
        self.ke3_message.len() == cs.ke3_len
    }

    /// What decoding makes of `input`: the whole of it goes to the decoder of
    /// the key-exchange message.
    pub open spec fn parse(cs: CipherSuite, input: Seq<u8>) -> Result<Self, ProtocolError> {
        match parse_ke3(cs, input) {
            Err(e) => Err(e),
            Ok(ke3_message) => Ok(CredentialFinalizationView { ke3_message }),
        }
    }
}

impl RegistrationRequest {
    /// A copy of the blinded element.
    pub fn get_blinded_element_for_testing(&self) -> (element: GroupElement)
        ensures
            element@ == self@.blinded_element,
    {
        self.blinded_element.clone()
    }

    /// Serialization into bytes.
    pub fn serialize(&self) -> (r: Result<Vec<u8>, ProtocolError>)
        ensures
            match r {
                Ok(bytes) => bytes@ == self@.wire(),
                Err(_) => false,
            },
    {
        Ok(self.blinded_element.serialize())
    }

    /// Deserialization from bytes.
    pub fn deserialize(input: &[u8]) -> (r: Result<Self, ProtocolError>)
        ensures
            match r {
                Ok(message) => {
                    &&& RegistrationRequestView::parse(input@) == Ok::<
                        RegistrationRequestView,
                        ProtocolError,
                    >(message@)
                    &&& message@.wf()
                    &&& message@.wire() == input@
                },
                Err(e) => RegistrationRequestView::parse(input@) == Err::<
                    RegistrationRequestView,
                    ProtocolError,
                >(e),
            },
    {
        proof {
            RegistrationRequestView::lemma_parse_sound(input@);
        }
        Ok(Self { blinded_element: GroupElement::deserialize(input)? })
    }
}

impl RegistrationResponse {
    /// Serialization into bytes.
    pub fn serialize(&self) -> (r: Result<Vec<u8>, ProtocolError>)
        ensures
            match r {
                Ok(bytes) => bytes@ == self@.wire(),
                Err(_) => false,
            },
    {
        let mut bytes = self.evaluation_element.serialize();
        let mut key = self.server_s_pk.to_vec();
        bytes.append(&mut key);
        Ok(bytes)
    }

    /// Deserialization from bytes.
    pub fn deserialize(input: &[u8]) -> (r: Result<Self, ProtocolError>)
        ensures
            match r {
                Ok(message) => {
                    &&& RegistrationResponseView::parse(input@) == Ok::<
                        RegistrationResponseView,
                        ProtocolError,
                    >(message@)
                    &&& message@.wf()
                    &&& message@.wire() == input@
                },
                Err(e) => RegistrationResponseView::parse(input@) == Err::<
                    RegistrationResponseView,
                    ProtocolError,
                >(e),
            },
    {
        proof {
            RegistrationResponseView::lemma_parse_sound(input@);
        }
        let elem_len = ELEM_LEN;
        let key_len = PK_LEN;
        let checked_slice = check_slice_size(
            input,
            elem_len + key_len,
            "registration_response_bytes",
        )?;

        // The server's key must pass the check of public keys
        let server_s_pk = KeyPair::check_public_key(
            PublicKey::from_bytes(&checked_slice[elem_len..elem_len + key_len])?,
        )?;

        Ok(
            Self {
                evaluation_element: GroupElement::deserialize(&checked_slice[0..elem_len])?,
                server_s_pk,
            },
        )
    }

    /// The same answer with another evaluation element. The element is taken
    /// as it is, the identity too.
    pub fn set_evaluation_element_for_testing(&self, beta: GroupElement) -> (message: Self)
        ensures
            message@ == (RegistrationResponseView { evaluation_element: beta@, ..self@ }),
    {
        Self { evaluation_element: beta, server_s_pk: self.server_s_pk.clone() }
    }
}

impl RegistrationUpload {
    /// Serialization into bytes.
    pub fn serialize(&self) -> (r: Result<Vec<u8>, ProtocolError>)
        ensures
            match r {
                Ok(bytes) => bytes@ == self@.wire(),
                Err(_) => false,
            },
    {
        let mut bytes = self.client_s_pk.to_vec();
        let mut masking_key = slice_to_vec(self.masking_key.as_slice());
        let mut envelope = self.envelope.serialize();
        bytes.append(&mut masking_key);
        bytes.append(&mut envelope);
        Ok(bytes)
    }

    /// Deserialization from bytes.
    pub fn deserialize(input: &[u8], cs: &CipherSuite) -> (r: Result<Self, ProtocolError>)
        ensures
            match r {
                Ok(message) => {
                    &&& RegistrationUploadView::parse(*cs, input@) == Ok::<
                        RegistrationUploadView,
                        ProtocolError,
                    >(message@)
                    &&& message@.wf(*cs)
                    &&& message@.wire() == input@
                },
                Err(e) => RegistrationUploadView::parse(*cs, input@) == Err::<
                    RegistrationUploadView,
                    ProtocolError,
                >(e),
            },
    {
        proof {
            RegistrationUploadView::lemma_parse_sound(*cs, input@);
        }
        let key_len = PK_LEN;
        let hash_len = cs.hash_len as usize;
        let checked_slice = check_slice_size_atleast(
            input,
            key_len + hash_len,
            "registration_upload_bytes",
        )?;
        let envelope = Envelope::deserialize(
            &checked_slice[key_len + hash_len..checked_slice.len()],
            cs,
        )?;
        Ok(
            Self {
                envelope,
                masking_key: slice_to_vec(&checked_slice[key_len..key_len + hash_len]),
                client_s_pk: KeyPair::check_public_key(
                    PublicKey::from_bytes(&checked_slice[0..key_len])?,
                )?,
            },
        )
    }

    /// The stand-in for the upload of an account that does not exist, with
    /// a masking key drawn from `rng`. Nothing but the masking key is drawn.
    /// The result is `None` where the generator reports that it could not
    /// deliver.
    pub fn dummy<R: RngCore + CryptoRng>(
        rng: &mut R,
        server_setup: &ServerSetup,
        cs: &CipherSuite,
    ) -> (r: Option<Self>)
        ensures
            match r {
                Some(upload) => {
                    &&& upload@ == RegistrationUploadView::dummy(
                        *cs,
                        server_setup.fake_public_key(),
                        upload@.masking_key,
                    )
                    &&& upload@.masking_key.len() == cs.hash_len
                    &&& upload@.wf(*cs)
                },
                None => true,
            },
    {
        let mut masking_key = zero_bytes(cs.hash_len as usize);
        let filled = try_fill_random(rng, &mut masking_key);
        Self::dummy_from_draw(filled, masking_key, server_setup, cs)
    }

    /// The stand-in for the upload of an account that does not exist, with
    /// the masking key given.
    pub fn dummy_with_masking_key(
        masking_key: Vec<u8>,
        server_setup: &ServerSetup,
        cs: &CipherSuite,
    ) -> (upload: Self)
        ensures
            upload@ == RegistrationUploadView::dummy(
                *cs,
                server_setup.fake_public_key(),
                masking_key@,
            ),
            upload@.wf(*cs) <==> masking_key@.len() == cs.hash_len,
    {
        Self {
            envelope: Envelope::dummy(cs),
            masking_key,
            client_s_pk: server_setup.fake_keypair().public().clone(),
        }
    }

    /// What becomes of a draw from the generator: the stand-in upload with
    /// the bytes drawn as masking key where the generator delivered
    /// (`filled`), and nothing where it did not.
    pub fn dummy_from_draw(
        filled: bool,
        masking_key: Vec<u8>,
        server_setup: &ServerSetup,
        cs: &CipherSuite,
    ) -> (r: Option<Self>)
        ensures
            match r {
                Some(upload) => {
                    &&& filled
                    &&& upload@ == RegistrationUploadView::dummy(
                        *cs,
                        server_setup.fake_public_key(),
                        masking_key@,
                    )
                    &&& upload@.wf(*cs) <==> masking_key@.len() == cs.hash_len
                },
                None => !filled,
            },
    {
        if filled {
            Some(Self::dummy_with_masking_key(masking_key, server_setup, cs))
        } else {
            None
        }
    }
}

impl CredentialRequest {
    /// Serialization into bytes.
    pub fn serialize(&self) -> (r: Result<Vec<u8>, ProtocolError>)
        ensures
            match r {
                Ok(bytes) => bytes@ == self@.wire(),
                Err(_) => false,
            },
    {
        let mut bytes = self.blinded_element.serialize();
        let mut ke1 = self.ke1_message.to_bytes();
        bytes.append(&mut ke1);
        Ok(bytes)
    }

    /// Deserialization from bytes.
    pub fn deserialize(input: &[u8], cs: &CipherSuite) -> (r: Result<Self, ProtocolError>)
        ensures
            match r {
                Ok(message) => {
                    &&& CredentialRequestView::parse(*cs, input@) == Ok::<
                        CredentialRequestView,
                        ProtocolError,
                    >(message@)
                    &&& message@.wf(*cs)
                    &&& message@.wire() == input@
                },
                Err(e) => CredentialRequestView::parse(*cs, input@) == Err::<
                    CredentialRequestView,
                    ProtocolError,
                >(e),
            },
    {
        proof {
            CredentialRequestView::lemma_parse_sound(*cs, input@);
        }
        let elem_len = ELEM_LEN;

        let checked_slice = check_slice_size_atleast(input, elem_len, "login_first_message_bytes")?;

        // The blinded element must be an element of the group
        let blinded_element = GroupElement::deserialize(&checked_slice[0..elem_len])?;

        // and not its identity
        if blinded_element.is_identity() {
            return Err(ProtocolError::IdentityGroupElementError);
        }
        let ke1_message = KE1Message::from_bytes(
            &checked_slice[elem_len..checked_slice.len()],
            cs,
        )?;

        Ok(Self { blinded_element, ke1_message })
    }

    /// A copy of the blinded element.
    pub fn get_blinded_element_for_testing(&self) -> (element: GroupElement)
        ensures
            element@ == self@.blinded_element,
    {
        self.blinded_element.clone()
    }
}

impl CredentialResponse {
    /// Serialization into bytes.
    pub fn serialize(&self) -> (r: Result<Vec<u8>, ProtocolError>)
        ensures
            match r {
                Ok(bytes) => bytes@ == self@.wire(),
                Err(_) => false,
            },
    {
        let mut bytes = Self::serialize_without_ke(
            &self.evaluation_element,
            self.masking_nonce.as_slice(),
            self.masked_response.as_slice(),
        );
        let mut ke2 = self.ke2_message.to_bytes();
        bytes.append(&mut ke2);
        Ok(bytes)
    }

    /// The part of the layout that stands before the key-exchange message.
    pub fn serialize_without_ke(
        beta: &GroupElement,
        masking_nonce: &[u8],
        masked_response: &[u8],
    ) -> (bytes: Vec<u8>)
        ensures
            bytes@ == beta@ + masking_nonce@ + masked_response@,
    {
        let mut bytes = beta.serialize();
        let mut nonce = slice_to_vec(masking_nonce);
        let mut response = slice_to_vec(masked_response);
        bytes.append(&mut nonce);
        bytes.append(&mut response);
        bytes
    }

    /// Deserialization from bytes.
    pub fn deserialize(input: &[u8], cs: &CipherSuite) -> (r: Result<Self, ProtocolError>)
        ensures
            match r {
                Ok(message) => {
                    &&& CredentialResponseView::parse(*cs, input@) == Ok::<
                        CredentialResponseView,
                        ProtocolError,
                    >(message@)
                    &&& message@.wf(*cs)
                    &&& message@.wire() == input@
                },
                Err(e) => CredentialResponseView::parse(*cs, input@) == Err::<
                    CredentialResponseView,
                    ProtocolError,
                >(e),
            },
    {
        proof {
            CredentialResponseView::lemma_parse_sound(*cs, input@);
        }
        let elem_len = ELEM_LEN;
        let key_len = PK_LEN;
        let nonce_len: usize = NONCE_LEN;
        let envelope_len = Envelope::len(cs);
        let masked_response_len = key_len + envelope_len;
        let ke2_message_len = ke2_message_size(cs);

        let checked_slice = check_slice_size_atleast(
            input,
            elem_len + nonce_len + masked_response_len + ke2_message_len,
            "credential_response_bytes",
        )?;

        // The evaluation element must be an element of the group
        let beta_bytes = &checked_slice[0..elem_len];
        let evaluation_element = GroupElement::deserialize(beta_bytes)?;

        // and not its identity
        if evaluation_element.is_identity() {
            return Err(ProtocolError::IdentityGroupElementError);
        }
        let masking_nonce = slice_to_vec(&checked_slice[elem_len..elem_len + nonce_len]);
        let masked_response = slice_to_vec(
            &checked_slice[elem_len + nonce_len..elem_len + nonce_len + masked_response_len],
        );
        let ke2_message = KE2Message::from_bytes(
            &checked_slice[elem_len + nonce_len + masked_response_len..checked_slice.len()],
            cs,
        )?;

        Ok(Self { evaluation_element, masking_nonce, masked_response, ke2_message })
    }

    /// The same answer with another evaluation element. The element is taken
    /// as it is, the identity too.
    pub fn set_evaluation_element_for_testing(&self, beta: GroupElement) -> (message: Self)
        ensures
            message@ == (CredentialResponseView { evaluation_element: beta@, ..self@ }),
    {
        Self {
            evaluation_element: beta,
            masking_nonce: slice_to_vec(self.masking_nonce.as_slice()),
            masked_response: slice_to_vec(self.masked_response.as_slice()),
            ke2_message: self.ke2_message.clone(),
        }
    }
}

impl CredentialFinalization {
    /// Serialization into bytes.
    pub fn serialize(&self) -> (r: Result<Vec<u8>, ProtocolError>)
        ensures
            match r {
                Ok(bytes) => bytes@ == self@.wire(),
                Err(_) => false,
            },
    {
        Ok(self.ke3_message.to_bytes())
    }

    /// Deserialization from bytes.
    pub fn deserialize(input: &[u8], cs: &CipherSuite) -> (r: Result<Self, ProtocolError>)
        ensures
            match r {
                Ok(message) => {
                    &&& CredentialFinalizationView::parse(*cs, input@) == Ok::<
                        CredentialFinalizationView,
                        ProtocolError,
                    >(message@)
                    &&& message@.wf(*cs)
                    &&& message@.wire() == input@
                },
                Err(e) => CredentialFinalizationView::parse(*cs, input@) == Err::<
                    CredentialFinalizationView,
                    ProtocolError,
                >(e),
            },
    {
        proof {
            CredentialFinalizationView::lemma_parse_sound(*cs, input@);
        }
        let ke3_message = KE3Message::from_bytes(input, cs)?;
        Ok(Self { ke3_message })
    }
}

impl Clone for RegistrationRequest {
    fn clone(&self) -> (copy: Self)
        ensures
            copy@ == self@,
    {
        Self { blinded_element: self.blinded_element.clone() }
    }
}

impl Clone for RegistrationResponse {
    fn clone(&self) -> (copy: Self)
        ensures
            copy@ == self@,
    {
        Self {
            evaluation_element: self.evaluation_element.clone(),
            server_s_pk: self.server_s_pk.clone(),
        }
    }
}

impl Clone for RegistrationUpload {
    fn clone(&self) -> (copy: Self)
        ensures
            copy@ == self@,
    {
        Self {
            envelope: self.envelope.clone(),
            masking_key: slice_to_vec(self.masking_key.as_slice()),
            client_s_pk: self.client_s_pk.clone(),
        }
    }
}

impl Clone for CredentialRequest {
    fn clone(&self) -> (copy: Self)
        ensures
            copy@ == self@,
    {
        Self {
            blinded_element: self.blinded_element.clone(),
            ke1_message: self.ke1_message.clone(),
        }
    }
}

impl Clone for CredentialResponse {
    fn clone(&self) -> (copy: Self)
        ensures
            copy@ == self@,
    {
        Self {
            evaluation_element: self.evaluation_element.clone(),
            masking_nonce: slice_to_vec(self.masking_nonce.as_slice()),
            masked_response: slice_to_vec(self.masked_response.as_slice()),
            ke2_message: self.ke2_message.clone(),
        }
    }
}

impl Clone for CredentialFinalization {
    fn clone(&self) -> (copy: Self)
        ensures
            copy@ == self@,
    {
        Self { ke3_message: self.ke3_message.clone() }
    }
}

} // verus!
