use solana_redpacket::random::decimal_text_of;
use solana_redpacket::{
    check_create_params, claim_with_native_token, claim_with_spl_token,
    create_red_packet_with_native_token, create_red_packet_with_spl_token,
    generate_random_number, initialize_red_packet, verify_claim_signature,
    withdraw_with_native_token, withdraw_with_spl_token, CustomError, RedPacket,
    RED_PACKET_SPILT_EQUAL, RED_PACKET_SPILT_RANDOM, RED_PACKET_USE_CUSTOM_TOKEN,
    RED_PACKET_USE_NATIVE_TOKEN, RED_PACKET_WITHDRAW_STATUS_CLAIMED,
    RED_PACKET_WITHDRAW_STATUS_NOT_WITHDRAW,
};

const NOW: i64 = 1_700_000_000;
const CREATOR: [u8; 32] = [7u8; 32];
const ISSUER: [u8; 32] = [9u8; 32];
const PACKET: [u8; 32] = [1u8; 32];

fn key(b: u8) -> [u8; 32] {
    [b; 32]
}

/// The data of an ed25519 instruction with one signature by `issuer` over
/// `packet ‖ claimer`, laid out as the runtime's instruction builder does.
fn signature_instruction(issuer: &[u8; 32], packet: &[u8; 32], claimer: &[u8; 32]) -> Vec<u8> {
    let mut d = vec![1u8, 0u8];
    let fields: [u16; 7] = [48, u16::MAX, 16, u16::MAX, 112, 64, u16::MAX];
    for f in fields {
        d.extend_from_slice(&f.to_le_bytes());
    }
    d.extend_from_slice(issuer);
    d.extend_from_slice(&[0x5au8; 64]);
    d.extend_from_slice(packet);
    d.extend_from_slice(claimer);
    d
}

fn native_packet(total_number: u8, total_amount: u64, random: bool) -> RedPacket {
    create_red_packet_with_native_token(
        CREATOR,
        u64::MAX,
        NOW,
        total_number,
        total_amount,
        NOW as u64,
        3600,
        random,
        ISSUER,
        "gift".to_string(),
        "happy new year".to_string(),
    )
    .unwrap()
}

fn claim(p: &mut RedPacket, claimer: u8) -> Result<u64, CustomError> {
    let c = key(claimer);
    claim_with_native_token(p, &PACKET, &c, &signature_instruction(&ISSUER, &PACKET, &c), NOW)
}

#[test]
fn equal_split_full_exhaustion() {
    let mut p = native_packet(4, 1000, RED_PACKET_SPILT_EQUAL);
    let shares: Vec<u64> = (2u8..6).map(|c| claim(&mut p, c).unwrap()).collect();
    assert_eq!(shares, vec![250, 250, 250, 250]);
    assert_eq!(shares.iter().sum::<u64>(), 1000);
    assert_eq!(p.claimed_amount, 1000);
    assert_eq!(p.claimed_number, 4);
    assert_eq!(p.claimed_amount_records, shares);
}

#[test]
fn equal_split_last_slot_takes_the_remainder() {
    let mut p = native_packet(3, 10, RED_PACKET_SPILT_EQUAL);
    let shares: Vec<u64> = (2u8..5).map(|c| claim(&mut p, c).unwrap()).collect();
    assert_eq!(shares, vec![3, 3, 4]);
    assert_eq!(p.claimed_amount, 10);
}

#[test]
fn random_split_full_exhaustion() {
    let mut p = native_packet(4, 1000, RED_PACKET_SPILT_RANDOM);
    let shares: Vec<u64> = (2u8..6).map(|c| claim(&mut p, c).unwrap()).collect();
    assert_eq!(shares, vec![446, 31, 198, 325]);
    assert!(shares.iter().all(|&s| s >= 1));
    assert_eq!(shares.iter().sum::<u64>(), 1000);
    assert_eq!(p.claimed_amount, p.total_amount);
    assert_eq!(p.claimed_users, vec![key(2), key(3), key(4), key(5)]);
}

#[test]
fn random_split_one_unit_per_slot() {
    let mut p = native_packet(4, 4, RED_PACKET_SPILT_RANDOM);
    let shares: Vec<u64> = (2u8..6).map(|c| claim(&mut p, c).unwrap()).collect();
    assert_eq!(shares, vec![1, 1, 1, 1]);
}

#[test]
fn random_share_with_zero_bound_is_refused() {
    let mut p = native_packet(3, 1, RED_PACKET_SPILT_RANDOM);
    let before = p.clone();
    assert_eq!(claim(&mut p, 2), Err(CustomError::InvalidClaimAmount));
    assert_eq!(p, before);
}

#[test]
fn random_draw_is_hash_of_keys_and_time() {
    assert_eq!(generate_random_number(&key(1), &key(2), NOW), 223879827948516946);
    assert_eq!(generate_random_number(&key(1), &key(2), -5), 3008354791523328080);
    assert_eq!(generate_random_number(&key(1), &key(3), NOW), 15157639706680188418);
}

#[test]
fn decimal_text_matches_display() {
    for n in [0i64, 7, 10, 1_700_000_000, -5, i64::MIN, i64::MAX] {
        assert_eq!(decimal_text_of(n), n.to_string().into_bytes());
    }
}

#[test]
fn create_time_outside_tolerance_is_refused() {
    for create_time in [NOW as u64 + 121, NOW as u64 - 121, NOW as u64 + 120, NOW as u64 - 120] {
        assert_eq!(
            check_create_params(4, 1000, create_time, 3600, NOW, 1000),
            Err(CustomError::InvalidCreateTime)
        );
    }
    assert_eq!(check_create_params(4, 1000, NOW as u64 + 119, 3600, NOW, 1000), Ok(()));
    assert_eq!(check_create_params(4, 1000, NOW as u64 - 119, 3600, NOW, 1000), Ok(()));
}

#[test]
fn create_already_expired_is_refused() {
    assert_eq!(
        check_create_params(4, 1000, NOW as u64, 0, NOW, 1000),
        Err(CustomError::InvalidExpiryTime)
    );
    assert_eq!(
        check_create_params(4, 1000, NOW as u64 - 100, 100, NOW, 1000),
        Err(CustomError::InvalidExpiryTime)
    );
    assert_eq!(check_create_params(4, 1000, NOW as u64 - 100, 101, NOW, 1000), Ok(()));
}

#[test]
fn create_parameter_errors() {
    assert_eq!(check_create_params(0, 1000, NOW as u64, 60, NOW, 1000), Err(CustomError::InvalidTotalNumber));
    assert_eq!(check_create_params(201, 1000, NOW as u64, 60, NOW, 1000), Err(CustomError::InvalidTotalNumber));
    assert_eq!(check_create_params(200, 1000, NOW as u64, 60, NOW, 1000), Ok(()));
    assert_eq!(check_create_params(4, 0, NOW as u64, 60, NOW, 1000), Err(CustomError::InvalidTotalAmount));
    assert_eq!(
        check_create_params(4, 1000, NOW as u64, 60, NOW, 999),
        Err(CustomError::InsufficientTokenBalance)
    );
}

#[test]
fn create_with_spl_token_records_the_mint() {
    let mint = key(42);
    let p = create_red_packet_with_spl_token(
        CREATOR, mint, 500, NOW, 5, 500, NOW as u64, 60, RED_PACKET_SPILT_RANDOM, ISSUER,
        "n".to_string(), "m".to_string(),
    )
    .unwrap();
    assert_eq!(p.token_type, RED_PACKET_USE_CUSTOM_TOKEN);
    assert_eq!(p.token_address, mint);
    assert_eq!(p.creator, CREATOR);
    assert_eq!(p.total_number, 5);
    assert_eq!(p.total_amount, 500);
    assert_eq!(p.claimed_number, 0);
    assert_eq!(p.claimed_amount, 0);
    assert!(p.claimed_users.is_empty());
    assert_eq!(p.withdraw_status, RED_PACKET_WITHDRAW_STATUS_NOT_WITHDRAW);
    assert_eq!(p.name, "n");
    assert_eq!(p.message, "m");
    let short = create_red_packet_with_spl_token(
        CREATOR, mint, 499, NOW, 5, 500, NOW as u64, 60, RED_PACKET_SPILT_RANDOM, ISSUER,
        String::new(), String::new(),
    );
    assert_eq!(short, Err(CustomError::InsufficientTokenBalance));
}

#[test]
fn create_with_native_token_has_no_mint() {
    let p = native_packet(2, 10, RED_PACKET_SPILT_EQUAL);
    assert_eq!(p.token_type, RED_PACKET_USE_NATIVE_TOKEN);
    assert_eq!(p.token_address, [0u8; 32]);
    assert_eq!(p.pubkey_for_claim_signature, ISSUER);
    assert_eq!(p.duration, 3600);
}

#[test]
fn initialize_zeroes_the_counters() {
    let p = initialize_red_packet(
        CREATOR, 3, 30, 5, 6, RED_PACKET_USE_NATIVE_TOKEN, [0u8; 32], true, ISSUER,
        String::new(), String::new(),
    );
    assert_eq!((p.claimed_number, p.claimed_amount, p.create_time, p.duration), (0, 0, 5, 6));
    assert!(p.if_spilt_random);
    assert!(p.claimed_amount_records.is_empty());
}

#[test]
fn claim_at_or_after_expiry_fails() {
    let mut p = native_packet(4, 1000, RED_PACKET_SPILT_EQUAL);
    let c = key(2);
    let sig = signature_instruction(&ISSUER, &PACKET, &c);
    let before = p.clone();
    for now in [NOW + 3600, NOW + 3601] {
        assert_eq!(
            claim_with_spl_token(&mut p, &PACKET, &c, &sig, now),
            Err(CustomError::RedPacketExpired)
        );
        assert_eq!(p, before);
    }
    assert_eq!(claim_with_spl_token(&mut p, &PACKET, &c, &sig, NOW + 3599), Ok(250));
}

#[test]
fn withdraw_before_expiry_fails() {
    let mut p = native_packet(4, 1000, RED_PACKET_SPILT_EQUAL);
    assert_eq!(
        withdraw_with_native_token(&mut p, &CREATOR, NOW + 3599),
        Err(CustomError::RedPacketNotExpired)
    );
    assert_eq!(p.withdraw_status, RED_PACKET_WITHDRAW_STATUS_NOT_WITHDRAW);
}

#[test]
fn second_withdrawal_fails() {
    let mut p = native_packet(4, 1000, RED_PACKET_SPILT_EQUAL);
    claim(&mut p, 2).unwrap();
    assert_eq!(withdraw_with_spl_token(&mut p, &CREATOR, NOW + 3600), Ok(750));
    assert_eq!(p.withdraw_status, RED_PACKET_WITHDRAW_STATUS_CLAIMED);
    let after_first = p.clone();
    assert_eq!(
        withdraw_with_spl_token(&mut p, &CREATOR, NOW + 7200),
        Err(CustomError::RedPacketWithdrawn)
    );
    assert_eq!(p, after_first);
}

#[test]
fn withdraw_by_someone_else_is_unauthorized() {
    let mut p = native_packet(4, 1000, RED_PACKET_SPILT_EQUAL);
    assert_eq!(withdraw_with_native_token(&mut p, &key(2), NOW + 3600), Err(CustomError::Unauthorized));
    assert_eq!(withdraw_with_native_token(&mut p, &CREATOR, NOW + 3600), Ok(1000));
}

#[test]
fn wrongly_keyed_or_wrong_message_signature_fails() {
    let mut p = native_packet(4, 1000, RED_PACKET_SPILT_RANDOM);
    claim(&mut p, 2).unwrap();
    let before = p.clone();
    let c = key(3);
    let wrong_key = signature_instruction(&key(8), &PACKET, &c);
    let wrong_packet = signature_instruction(&ISSUER, &key(6), &c);
    let wrong_claimer = signature_instruction(&ISSUER, &PACKET, &key(4));
    for sig in [wrong_key, wrong_packet, wrong_claimer] {
        assert_eq!(claim_with_native_token(&mut p, &PACKET, &c, &sig, NOW), Err(CustomError::InvalidSignature));
        assert_eq!(p, before);
    }
}

#[test]
fn duplicate_claim_fails() {
    let mut p = native_packet(4, 1000, RED_PACKET_SPILT_EQUAL);
    assert_eq!(claim(&mut p, 2), Ok(250));
    assert_eq!(claim(&mut p, 2), Err(CustomError::RedPacketClaimed));
    assert_eq!(p.claimed_number, 1);
}

#[test]
fn claim_on_full_packet_fails() {
    let mut p = native_packet(1, 1000, RED_PACKET_SPILT_EQUAL);
    assert_eq!(claim(&mut p, 2), Ok(1000));
    assert_eq!(claim(&mut p, 3), Err(CustomError::RedPacketAllClaimed));
}

#[test]
fn signature_instruction_shape_is_checked() {
    let c = key(3);
    let good = signature_instruction(&ISSUER, &PACKET, &c);
    assert_eq!(verify_claim_signature(&good, &PACKET, &c, &ISSUER), Ok(()));
    assert_eq!(verify_claim_signature(&[], &PACKET, &c, &ISSUER), Err(CustomError::InvalidSignature));
    assert_eq!(verify_claim_signature(&good[..10], &PACKET, &c, &ISSUER), Err(CustomError::InvalidSignature));
    let mut two = good.clone();
    two[0] = 2;
    assert_eq!(verify_claim_signature(&two, &PACKET, &c, &ISSUER), Err(CustomError::InvalidSignature));
    let mut far_key = good.clone();
    far_key[6..8].copy_from_slice(&1000u16.to_le_bytes());
    assert_eq!(verify_claim_signature(&far_key, &PACKET, &c, &ISSUER), Err(CustomError::InvalidSignature));
    let mut long_msg = good.clone();
    long_msg[12..14].copy_from_slice(&65u16.to_le_bytes());
    assert_eq!(verify_claim_signature(&long_msg, &PACKET, &c, &ISSUER), Err(CustomError::InvalidSignature));
    assert_eq!(verify_claim_signature(&good, &PACKET, &c, &ISSUER[..31]), Err(CustomError::InvalidSignature));
}

#[test]
fn error_messages() {
    assert_eq!(CustomError::RedPacketExpired.message(), "The red packet has expired.");
    assert_eq!(CustomError::InvalidSignature.message(), "Invalid signature.");
}
