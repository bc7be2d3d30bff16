use curve25519_dalek::constants::RISTRETTO_BASEPOINT_POINT;
use curve25519_dalek::ristretto::RistrettoPoint;
use curve25519_dalek::scalar::Scalar;
use opaque_messages::ciphersuite::CipherSuite;
use opaque_messages::envelope::Envelope;
use opaque_messages::errors::ProtocolError;
use opaque_messages::group::GroupElement;
use opaque_messages::keypair::PublicKey;
use opaque_messages::messages::{RegistrationRequest, RegistrationResponse, RegistrationUpload};
use rand::rngs::StdRng;
use rand::SeedableRng;
use sha2::Sha512;

fn suite() -> CipherSuite {
    CipherSuite { hash_len: 32, envelope_len: 64, ke1_len: 64, ke2_len: 64, ke3_len: 32 }
}

fn point(k: u64) -> [u8; 32] {
    (RISTRETTO_BASEPOINT_POINT * Scalar::from(k)).compress().to_bytes()
}

fn element(k: u64) -> GroupElement {
    GroupElement::deserialize(&point(k)).unwrap()
}

fn wrong_size(name: &'static str, len: usize, actual_len: usize) -> ProtocolError {
    ProtocolError::SizeError { name, len, actual_len }
}

fn upload_bytes(key: &[u8], masking_key: &[u8], envelope: &[u8]) -> Vec<u8> {
    [key, masking_key, envelope].concat()
}

#[test]
fn registration_request_of_32_bytes() {
    let blinded = point(3);
    let request = RegistrationRequest { blinded_element: GroupElement::deserialize(&blinded).unwrap() };
    let bytes = request.serialize().unwrap();
    assert_eq!(bytes.len(), 32);
    assert_eq!(bytes, blinded.to_vec());

    assert_eq!(
        RegistrationRequest::deserialize(&bytes[..31]),
        Err(wrong_size("group_element", 32, 31))
    );
    let mut longer = bytes.clone();
    longer.push(0);
    assert_eq!(RegistrationRequest::deserialize(&longer), Err(wrong_size("group_element", 32, 33)));

    assert_eq!(RegistrationRequest::deserialize(&bytes), Ok(request));
}

#[test]
fn registration_request_refuses_empty_and_oversized_buffers() {
    assert_eq!(RegistrationRequest::deserialize(&[]), Err(wrong_size("group_element", 32, 0)));
    assert_eq!(
        RegistrationRequest::deserialize(&[0u8; 1000]),
        Err(wrong_size("group_element", 32, 1000))
    );
    assert_eq!(
        RegistrationRequest::deserialize(&[point(3), point(3)].concat()),
        Err(wrong_size("group_element", 32, 64))
    );
}

#[test]
fn registration_request_refuses_bytes_that_encode_no_element() {
    assert_eq!(RegistrationRequest::deserialize(&[0xff; 32]), Err(ProtocolError::PointError));
}

#[test]
fn registration_request_does_not_rule_out_the_identity() {
    let request = RegistrationRequest::deserialize(&[0u8; 32]).unwrap();
    assert!(request.blinded_element.is_identity());
    assert_eq!(request.serialize().unwrap(), vec![0u8; 32]);
}

#[test]
fn registration_request_round_trip_of_a_blinded_password() {
    let mut rng = StdRng::seed_from_u64(11);
    let blinded = voprf::NonVerifiableClient::<RistrettoPoint, Sha512>::blind(
        b"correct horse battery staple".to_vec(),
        &mut rng,
    )
    .unwrap()
    .message;
    let sent = blinded.serialize();
    let request = RegistrationRequest::deserialize(&sent).unwrap();
    assert_eq!(request.serialize().unwrap(), sent);
    assert_eq!(RegistrationRequest::deserialize(&request.serialize().unwrap()), Ok(request.clone()));
    assert_eq!(
        voprf::BlindedElement::<RistrettoPoint, Sha512>::deserialize(&request.serialize().unwrap())
            .unwrap()
            .serialize(),
        sent
    );
}

#[test]
fn registration_request_gives_its_blinded_element() {
    let request = RegistrationRequest { blinded_element: element(5) };
    assert_eq!(request.get_blinded_element_for_testing(), element(5));
    assert_eq!(request.clone(), request);
}

#[test]
fn registration_response_is_element_then_key() {
    let response = RegistrationResponse {
        evaluation_element: element(7),
        server_s_pk: PublicKey::from_bytes(&point(9)).unwrap(),
    };
    let bytes = response.serialize().unwrap();
    assert_eq!(bytes.len(), 64);
    assert_eq!(&bytes[..32], &point(7)[..]);
    assert_eq!(&bytes[32..], &point(9)[..]);
}

#[test]
fn registration_response_round_trip() {
    for k in 1u64..10 {
        let response = RegistrationResponse {
            evaluation_element: element(k),
            server_s_pk: PublicKey::from_bytes(&point(k + 100)).unwrap(),
        };
        let bytes = response.serialize().unwrap();
        assert_eq!(RegistrationResponse::deserialize(&bytes), Ok(response.clone()));
        assert_eq!(RegistrationResponse::deserialize(&bytes).unwrap().serialize().unwrap(), bytes);
    }
}

#[test]
fn registration_response_refuses_other_lengths() {
    let bytes = [point(7), point(9)].concat();
    assert_eq!(
        RegistrationResponse::deserialize(&bytes[..63]),
        Err(wrong_size("registration_response_bytes", 64, 63))
    );
    let mut longer = bytes.clone();
    longer.push(0);
    assert_eq!(
        RegistrationResponse::deserialize(&longer),
        Err(wrong_size("registration_response_bytes", 64, 65))
    );
    assert_eq!(
        RegistrationResponse::deserialize(&[]),
        Err(wrong_size("registration_response_bytes", 64, 0))
    );
    assert_eq!(
        RegistrationResponse::deserialize(&bytes[..32]),
        Err(wrong_size("registration_response_bytes", 64, 32))
    );
}

#[test]
fn registration_response_refuses_a_key_that_fails_the_check() {
    let identity_key = [point(7), [0u8; 32]].concat();
    assert_eq!(RegistrationResponse::deserialize(&identity_key), Err(ProtocolError::PointError));
    let no_point = [point(7), [0xff; 32]].concat();
    assert_eq!(RegistrationResponse::deserialize(&no_point), Err(ProtocolError::PointError));
}

#[test]
fn registration_response_refuses_bytes_that_encode_no_element() {
    let bytes = [[0xff; 32], point(9)].concat();
    assert_eq!(RegistrationResponse::deserialize(&bytes), Err(ProtocolError::PointError));
}

#[test]
fn registration_response_does_not_rule_out_the_identity_as_element() {
    let bytes = [[0u8; 32], point(9)].concat();
    let response = RegistrationResponse::deserialize(&bytes).unwrap();
    assert!(response.evaluation_element.is_identity());
    assert_eq!(response.serialize().unwrap(), bytes);
}

#[test]
fn registration_response_with_another_evaluation_element() {
    let response = RegistrationResponse {
        evaluation_element: element(7),
        server_s_pk: PublicKey::from_bytes(&point(9)).unwrap(),
    };
    let changed = response.set_evaluation_element_for_testing(element(8));
    assert_eq!(changed.evaluation_element, element(8));
    assert_eq!(changed.server_s_pk, response.server_s_pk);
    assert_eq!(changed.serialize().unwrap(), [point(8), point(9)].concat());

    let with_identity =
        response.set_evaluation_element_for_testing(GroupElement::deserialize(&[0u8; 32]).unwrap());
    assert!(with_identity.evaluation_element.is_identity());
    assert_eq!(with_identity.server_s_pk, response.server_s_pk);
}

#[test]
fn registration_upload_is_key_then_masking_key_then_envelope() {
    let cs = suite();
    let envelope: Vec<u8> = (0u8..64).collect();
    let upload = RegistrationUpload {
        envelope: Envelope::deserialize(&envelope, &cs).unwrap(),
        masking_key: vec![0xaa; 32],
        client_s_pk: PublicKey::from_bytes(&point(4)).unwrap(),
    };
    let bytes = upload.serialize().unwrap();
    assert_eq!(bytes.len(), 128);
    assert_eq!(&bytes[..32], &point(4)[..]);
    assert_eq!(&bytes[32..64], &[0xaa; 32][..]);
    assert_eq!(&bytes[64..], &envelope[..]);
}

#[test]
fn registration_upload_round_trip() {
    let cs = suite();
    for k in 1u8..10 {
        let envelope: Vec<u8> = (k..k + 64).collect();
        let upload = RegistrationUpload {
            envelope: Envelope::deserialize(&envelope, &cs).unwrap(),
            masking_key: vec![k; 32],
            client_s_pk: PublicKey::from_bytes(&point(k as u64)).unwrap(),
        };
        let bytes = upload.serialize().unwrap();
        assert_eq!(RegistrationUpload::deserialize(&bytes, &cs), Ok(upload.clone()));
        assert_eq!(RegistrationUpload::deserialize(&bytes, &cs).unwrap().serialize().unwrap(), bytes);
    }
}

#[test]
fn registration_upload_round_trip_in_a_suite_with_a_longer_hash() {
    let cs = CipherSuite { hash_len: 64, envelope_len: 96, ke1_len: 64, ke2_len: 128, ke3_len: 64 };
    let upload = RegistrationUpload {
        envelope: Envelope::deserialize(&[5u8; 96], &cs).unwrap(),
        masking_key: vec![6u8; 64],
        client_s_pk: PublicKey::from_bytes(&point(4)).unwrap(),
    };
    let bytes = upload.serialize().unwrap();
    assert_eq!(bytes.len(), 32 + 64 + 96);
    assert_eq!(RegistrationUpload::deserialize(&bytes, &cs), Ok(upload));
    // the same bytes are no upload of the smaller suite
    assert_eq!(
        RegistrationUpload::deserialize(&bytes, &suite()),
        Err(wrong_size("envelope", 64, 128))
    );
}

#[test]
fn registration_upload_refuses_what_is_shorter_than_key_and_masking_key() {
    let cs = suite();
    let bytes = upload_bytes(&point(4), &[0xaa; 32], &[0u8; 64]);
    assert_eq!(
        RegistrationUpload::deserialize(&bytes[..63], &cs),
        Err(wrong_size("registration_upload_bytes", 64, 63))
    );
    assert_eq!(
        RegistrationUpload::deserialize(&[], &cs),
        Err(wrong_size("registration_upload_bytes", 64, 0))
    );
}

#[test]
fn registration_upload_leaves_the_rest_to_the_envelope() {
    let cs = suite();
    let bytes = upload_bytes(&point(4), &[0xaa; 32], &[0u8; 64]);
    // nothing behind the masking key
    assert_eq!(
        RegistrationUpload::deserialize(&bytes[..64], &cs),
        Err(wrong_size("envelope", 64, 0))
    );
    // an envelope that is one byte short, one that is one byte long
    assert_eq!(
        RegistrationUpload::deserialize(&bytes[..127], &cs),
        Err(wrong_size("envelope", 64, 63))
    );
    let mut longer = bytes.clone();
    longer.push(0);
    assert_eq!(RegistrationUpload::deserialize(&longer, &cs), Err(wrong_size("envelope", 64, 65)));
    // where envelopes are empty, nothing behind the masking key is an envelope
    let empty_envelopes = CipherSuite { envelope_len: 0, ..cs };
    let upload = RegistrationUpload::deserialize(&bytes[..64], &empty_envelopes).unwrap();
    assert_eq!(upload.envelope.serialize(), Vec::<u8>::new());
    assert_eq!(upload.masking_key, vec![0xaa; 32]);
    assert_eq!(upload.serialize().unwrap(), bytes[..64].to_vec());
}

#[test]
fn registration_upload_refuses_a_key_that_fails_the_check() {
    let cs = suite();
    let identity_key = upload_bytes(&[0u8; 32], &[0xaa; 32], &[1u8; 64]);
    assert_eq!(RegistrationUpload::deserialize(&identity_key, &cs), Err(ProtocolError::PointError));
    let no_point = upload_bytes(&[0xff; 32], &[0xaa; 32], &[1u8; 64]);
    assert_eq!(RegistrationUpload::deserialize(&no_point, &cs), Err(ProtocolError::PointError));
}

#[test]
fn registration_upload_judges_the_envelope_before_the_key() {
    let cs = suite();
    let both_wrong = upload_bytes(&[0u8; 32], &[0xaa; 32], &[1u8; 10]);
    assert_eq!(
        RegistrationUpload::deserialize(&both_wrong, &cs),
        Err(wrong_size("envelope", 64, 10))
    );
}
