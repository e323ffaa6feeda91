use ink::env::hash::{Blake2x256, CryptoHash, Sha2x256};
use pay_channel::{signature_authorizes, AccountId, Error, PaymentChannel, SenderCloseStarted, Settlement};
use secp256k1::{Message, PublicKey, Secp256k1, SecretKey};

const CHANNEL: [u8; 32] = [7u8; 32];
const OTHER_CHANNEL: [u8; 32] = [8u8; 32];
const SENDER: [u8; 32] = [1u8; 32];
const STRANGER: [u8; 32] = [9u8; 32];

fn secret() -> SecretKey {
    SecretKey::from_slice(&[0x42u8; 32]).unwrap()
}

/// The account derived from the signing key: BLAKE2-256 of the compressed key.
fn signer_account() -> AccountId {
    let secp = Secp256k1::new();
    let key = PublicKey::from_secret_key(&secp, &secret()).serialize();
    let mut account = [0u8; 32];
    Blake2x256::hash(&key, &mut account);
    AccountId(account)
}

/// Signs the claim `(channel, amount)`, with the recovery id offset by `v_offset`.
fn sign_with_offset(channel: [u8; 32], amount: u128, v_offset: u8) -> [u8; 65] {
    let mut digest = [0u8; 32];
    ink::env::hash_encoded::<Sha2x256, _>(&(channel, amount), &mut digest);
    let secp = Secp256k1::new();
    let message = Message::from_digest_slice(&digest).unwrap();
    let (id, compact) = secp.sign_ecdsa_recoverable(&message, &secret()).serialize_compact();
    let mut signature = [0u8; 65];
    signature[..64].copy_from_slice(&compact);
    signature[64] = id.to_i32() as u8 + v_offset;
    signature
}

fn sign(channel: [u8; 32], amount: u128) -> [u8; 65] {
    sign_with_offset(channel, amount, 0)
}

fn recipient() -> AccountId {
    signer_account()
}

fn funded_channel() -> PaymentChannel {
    PaymentChannel::new(AccountId(SENDER), AccountId(CHANNEL), recipient(), 100, 1000)
}

#[test]
fn new_channel_starts_open() {
    let c = funded_channel();
    assert_eq!(c.get_sender(), AccountId(SENDER));
    assert_eq!(c.get_recipient(), recipient());
    assert_eq!(c.get_expiration(), None);
    assert_eq!(c.get_withdrawn(), 0);
    assert_eq!(c.get_close_duration(), 100);
    assert_eq!(c.get_balance(), 1000);
}

#[test]
fn signature_over_claim_authorizes_signer() {
    let sig = sign(CHANNEL, 300);
    assert!(signature_authorizes(&AccountId(CHANNEL), 300, &sig, &recipient()));
    assert!(!signature_authorizes(&AccountId(CHANNEL), 301, &sig, &recipient()));
    assert!(!signature_authorizes(&AccountId(OTHER_CHANNEL), 300, &sig, &recipient()));
    assert!(!signature_authorizes(&AccountId(CHANNEL), 300, &sig, &AccountId(STRANGER)));
}

#[test]
fn recovery_id_offset_by_27_is_accepted() {
    let sig = sign_with_offset(CHANNEL, 300, 27);
    assert!(signature_authorizes(&AccountId(CHANNEL), 300, &sig, &recipient()));
}

#[test]
fn malformed_signatures_are_invalid_not_fatal() {
    let mut bad_id = sign(CHANNEL, 300);
    bad_id[64] = 5;
    assert!(!signature_authorizes(&AccountId(CHANNEL), 300, &bad_id, &recipient()));
    let mut bad_id_high = sign(CHANNEL, 300);
    bad_id_high[64] = 31;
    assert!(!signature_authorizes(&AccountId(CHANNEL), 300, &bad_id_high, &recipient()));
    let overflowing = [0xffu8; 65];
    assert!(!signature_authorizes(&AccountId(CHANNEL), 300, &overflowing, &recipient()));
    let zeros = [0u8; 65];
    assert!(!signature_authorizes(&AccountId(CHANNEL), 300, &zeros, &recipient()));
    let mut c = funded_channel();
    assert_eq!(c.withdrawn(recipient(), 300, overflowing), Err(Error::InvalidSignature));
    assert_eq!(c.close(recipient(), 300, bad_id), Err(Error::InvalidSignature));
    assert_eq!(c.get_withdrawn(), 0);
}

#[test]
fn withdraw_then_close_scenario() {
    let mut c = funded_channel();
    assert_eq!(c.withdrawn(recipient(), 300, sign(CHANNEL, 300)), Ok(300));
    assert_eq!(c.get_withdrawn(), 300);
    assert_eq!(c.get_balance(), 700);
    assert_eq!(
        c.close(recipient(), 500, sign(CHANNEL, 500)),
        Ok(Settlement { to_recipient: 200, to_sender: 500 })
    );
    assert_eq!(c.get_withdrawn(), 500);
    assert_eq!(c.get_balance(), 0);
    assert_eq!(c.withdrawn(recipient(), 600, sign(CHANNEL, 600)), Err(Error::ChannelTerminated));
}

#[test]
fn sender_close_and_timeout_scenario() {
    let mut c = funded_channel();
    assert_eq!(
        c.start_sender_close(AccountId(SENDER), 50),
        Ok(SenderCloseStarted { expiration: 150, close_duration: 100 })
    );
    assert_eq!(c.get_expiration(), Some(150));
    assert_eq!(c.clain_timeout(120), Err(Error::NotYetExpired));
    assert_eq!(c.get_expiration(), Some(150));
    assert_eq!(c.get_balance(), 1000);
    assert_eq!(c.clain_timeout(160), Ok(1000));
    assert_eq!(c.get_balance(), 0);
    assert_eq!(c.clain_timeout(170), Err(Error::ChannelTerminated));
}

#[test]
fn timeout_at_expiration_succeeds() {
    let mut c = funded_channel();
    c.start_sender_close(AccountId(SENDER), 50).unwrap();
    assert_eq!(c.withdrawn(recipient(), 250, sign(CHANNEL, 250)), Ok(250));
    assert_eq!(c.clain_timeout(150), Ok(750));
}

#[test]
fn timeout_without_sender_close_is_not_expired() {
    let mut c = funded_channel();
    assert_eq!(c.clain_timeout(u64::MAX), Err(Error::NotYetExpired));
    assert_eq!(c.get_balance(), 1000);
}

#[test]
fn signature_for_other_channel_is_rejected() {
    let mut c = funded_channel();
    assert_eq!(c.withdrawn(recipient(), 200, sign(OTHER_CHANNEL, 200)), Err(Error::InvalidSignature));
    assert_eq!(c.get_withdrawn(), 0);
    assert_eq!(c.get_balance(), 1000);
}

#[test]
fn withdrawn_total_only_grows() {
    let mut c = funded_channel();
    let mut last = 0u128;
    for amount in [100u128, 100, 250, 600, 1000] {
        let before = c.get_withdrawn();
        c.withdrawn(recipient(), amount, sign(CHANNEL, amount)).unwrap();
        assert!(c.get_withdrawn() >= before);
        assert!(c.get_withdrawn() <= 1000);
        assert!(c.get_withdrawn() >= last);
        last = c.get_withdrawn();
    }
    assert_eq!(c.get_withdrawn(), 1000);
    assert_eq!(c.get_balance(), 0);
}

#[test]
fn stale_claims_are_rejected_whatever_the_signature() {
    let mut c = funded_channel();
    c.withdrawn(recipient(), 300, sign(CHANNEL, 300)).unwrap();
    assert_eq!(c.withdrawn(recipient(), 200, sign(CHANNEL, 200)), Err(Error::AmountIsLessThanWithdrawn));
    assert_eq!(c.withdrawn(recipient(), 200, [0u8; 65]), Err(Error::AmountIsLessThanWithdrawn));
    assert_eq!(c.close(recipient(), 299, sign(CHANNEL, 299)), Err(Error::AmountIsLessThanWithdrawn));
    assert_eq!(c.close(recipient(), 299, [3u8; 65]), Err(Error::AmountIsLessThanWithdrawn));
    assert_eq!(c.get_withdrawn(), 300);
    assert_eq!(c.get_balance(), 700);
}

#[test]
fn only_recipient_withdraws_or_closes() {
    let mut c = funded_channel();
    let sig = sign(CHANNEL, 300);
    assert_eq!(c.withdrawn(AccountId(STRANGER), 300, sig), Err(Error::CallerIsNotRecipient));
    assert_eq!(c.withdrawn(AccountId(SENDER), 300, sig), Err(Error::CallerIsNotRecipient));
    assert_eq!(c.close(AccountId(SENDER), 300, sig), Err(Error::CallerIsNotRecipient));
    assert_eq!(c.get_withdrawn(), 0);
}

#[test]
fn only_sender_starts_close() {
    let mut c = funded_channel();
    assert_eq!(c.start_sender_close(recipient(), 50), Err(Error::CallerIsNotSender));
    assert_eq!(c.start_sender_close(AccountId(STRANGER), 50), Err(Error::CallerIsNotSender));
    assert_eq!(c.get_expiration(), None);
}

#[test]
fn sender_close_cannot_restart() {
    let mut c = funded_channel();
    c.start_sender_close(AccountId(SENDER), 50).unwrap();
    assert_eq!(c.start_sender_close(AccountId(SENDER), 90), Err(Error::CloseAlreadyStarted));
    assert_eq!(c.get_expiration(), Some(150));
}

#[test]
fn expiration_overflow_is_reported() {
    let mut c = funded_channel();
    assert_eq!(c.start_sender_close(AccountId(SENDER), u64::MAX - 99), Err(Error::ArithmeticOverflow));
    assert_eq!(c.get_expiration(), None);
    assert_eq!(
        c.start_sender_close(AccountId(SENDER), u64::MAX - 100),
        Ok(SenderCloseStarted { expiration: u64::MAX, close_duration: 100 })
    );
}

#[test]
fn claim_beyond_funds_fails_transfer() {
    let mut c = funded_channel();
    assert_eq!(c.withdrawn(recipient(), 1001, sign(CHANNEL, 1001)), Err(Error::TransferFailed));
    assert_eq!(c.close(recipient(), 5000, sign(CHANNEL, 5000)), Err(Error::TransferFailed));
    assert_eq!(c.get_withdrawn(), 0);
    assert_eq!(c.get_balance(), 1000);
}

#[test]
fn terminated_channel_refuses_everything() {
    let mut c = funded_channel();
    assert_eq!(
        c.close(recipient(), 1000, sign(CHANNEL, 1000)),
        Ok(Settlement { to_recipient: 1000, to_sender: 0 })
    );
    assert_eq!(c.withdrawn(recipient(), 1000, sign(CHANNEL, 1000)), Err(Error::ChannelTerminated));
    assert_eq!(c.close(recipient(), 1000, sign(CHANNEL, 1000)), Err(Error::ChannelTerminated));
    assert_eq!(c.start_sender_close(AccountId(SENDER), 1), Err(Error::ChannelTerminated));
    assert_eq!(c.clain_timeout(u64::MAX), Err(Error::ChannelTerminated));
    assert_eq!(c.get_withdrawn(), 1000);
}

#[test]
fn authorized_variants_follow_the_given_verdict() {
    let mut c = funded_channel();
    assert_eq!(c.withdraw_authorized(recipient(), 100, false), Err(Error::InvalidSignature));
    assert_eq!(c.withdraw_authorized(recipient(), 100, true), Ok(100));
    assert_eq!(c.close_authorized(recipient(), 400, false), Err(Error::InvalidSignature));
    assert_eq!(
        c.close_authorized(recipient(), 400, true),
        Ok(Settlement { to_recipient: 300, to_sender: 600 })
    );
}

#[test]
fn zero_amount_claim_transfers_nothing() {
    let mut c = funded_channel();
    assert_eq!(c.withdrawn(recipient(), 0, sign(CHANNEL, 0)), Ok(0));
    assert_eq!(c.get_withdrawn(), 0);
    assert_eq!(c.get_balance(), 1000);
}
