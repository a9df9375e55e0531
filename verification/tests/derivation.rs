use anchor_escrow::address::Address;
use anchor_escrow::derivation::{
    associated_token_address, derive_with_bump, escrow_address, escrow_address_with_bump,
    escrow_seed_list, find_program_address, matches_derived, verify_escrow_address,
};
use anchor_lang::prelude::Pubkey;

fn addr(n: u8) -> Address {
    Address::new([n; 32])
}

fn key(a: &Address) -> Pubkey {
    Pubkey::new_from_array(a.bytes)
}

fn program() -> Address {
    Address::new([
        165, 89, 137, 171, 56, 97, 141, 12, 215, 210, 156, 124, 152, 111, 74, 42, 74, 235, 24, 153,
        93, 60, 113, 125, 86, 64, 117, 154, 242, 169, 191, 163,
    ])
}

#[test]
fn program_identity_is_the_declared_one() {
    let declared: Pubkey = "C8TTYzo2y6YWak5ccePwfbKnP3e4Kr55mRsv4hEQp4DQ".parse().unwrap();
    assert_eq!(key(&program()), declared);
}

#[test]
fn address_equality_is_by_bytes() {
    let mut bytes = [7u8; 32];
    assert_eq!(Address::new(bytes), addr(7));
    bytes[31] = 8;
    assert_ne!(Address::new(bytes), addr(7));
    assert_eq!(addr(7).to_vec(), vec![7u8; 32]);
}

#[test]
fn escrow_seed_list_is_tag_maker_and_nonce() {
    let seeds = escrow_seed_list(&addr(3), 0x0102030405060708);
    assert_eq!(seeds.len(), 3);
    assert_eq!(seeds[0], b"escrow".to_vec());
    assert_eq!(seeds[1], vec![3u8; 32]);
    assert_eq!(seeds[2], vec![8u8, 7, 6, 5, 4, 3, 2, 1]);
}

#[test]
fn find_agrees_with_the_outside_search() {
    let program = program();
    for n in 0u8..40 {
        let seeds = vec![b"vault".to_vec(), vec![n], vec![n; 32]];
        let ours = find_program_address(seeds, &program).unwrap();
        let theirs = Pubkey::find_program_address(&[b"vault", &[n], &[n; 32]], &key(&program));
        assert_eq!(key(&ours.0), theirs.0);
        assert_eq!(ours.1, theirs.1);
        assert_ne!(ours.0, program);
    }
}

#[test]
fn find_skips_disambiguators_that_give_no_address() {
    let program = program();
    let mut skipped = 0;
    for n in 0u8..60 {
        let (_, bump) = find_program_address(vec![vec![n]], &program).unwrap();
        assert!(bump >= 1);
        for higher in (bump as u16 + 1)..=255 {
            assert_eq!(derive_with_bump(vec![vec![n]], higher as u8, &program), None);
            skipped += 1;
        }
    }
    assert!(skipped > 0);
}

#[test]
fn derive_with_bump_agrees_with_the_outside_derivation() {
    let program = program();
    let mut some = 0;
    let mut none = 0;
    for bump in 0u8..=255 {
        let ours = derive_with_bump(vec![b"escrow".to_vec(), vec![1u8; 32]], bump, &program);
        let theirs = Pubkey::create_program_address(
            &[b"escrow", &[1u8; 32], &[bump]],
            &key(&program),
        );
        match (ours, theirs) {
            (Some(a), Ok(k)) => {
                assert_eq!(key(&a), k);
                some += 1;
            }
            (None, Err(_)) => none += 1,
            _ => panic!("the two derivations disagree at {}", bump),
        }
    }
    assert!(some > 0 && none > 0);
}

#[test]
fn derivation_depends_on_program_and_seeds() {
    let (a, _) = find_program_address(vec![vec![1u8]], &addr(1)).unwrap();
    let (b, _) = find_program_address(vec![vec![1u8]], &addr(2)).unwrap();
    let (c, _) = find_program_address(vec![vec![2u8]], &addr(1)).unwrap();
    assert_ne!(a, b);
    assert_ne!(a, c);
    let (again, _) = find_program_address(vec![vec![1u8]], &addr(1)).unwrap();
    assert_eq!(a, again);
}

#[test]
fn seed_longer_than_32_bytes_derives_nothing() {
    assert_eq!(find_program_address(vec![vec![0u8; 33]], &program()), None);
    assert_eq!(derive_with_bump(vec![vec![0u8; 33]], 255, &program()), None);
    assert!(find_program_address(vec![vec![0u8; 32]], &program()).is_some());
}

#[test]
fn more_than_sixteen_seeds_derive_nothing() {
    let sixteen: Vec<Vec<u8>> = (0u8..16).map(|i| vec![i]).collect();
    assert_eq!(find_program_address(sixteen, &program()), None);
    let fifteen: Vec<Vec<u8>> = (0u8..15).map(|i| vec![i]).collect();
    assert!(find_program_address(fifteen, &program()).is_some());
}

#[test]
fn escrow_address_is_the_canonical_derivation() {
    let program = program();
    let maker = addr(11);
    for seed in [0u64, 1, 7, 255, 256, u64::MAX] {
        let (address, bump) = escrow_address(&program, &maker, seed).unwrap();
        let theirs = Pubkey::find_program_address(
            &[b"escrow", key(&maker).as_ref(), seed.to_le_bytes().as_ref()],
            &key(&program),
        );
        assert_eq!(key(&address), theirs.0);
        assert_eq!(bump, theirs.1);
        assert_eq!(escrow_address_with_bump(&program, &maker, seed, bump), Some(address));
        assert!(verify_escrow_address(&address, &program, &maker, seed, bump));
    }
}

#[test]
fn escrow_address_differs_by_maker_and_nonce() {
    let program = program();
    let (a, _) = escrow_address(&program, &addr(1), 7).unwrap();
    let (b, _) = escrow_address(&program, &addr(1), 8).unwrap();
    let (c, _) = escrow_address(&program, &addr(2), 7).unwrap();
    assert_ne!(a, b);
    assert_ne!(a, c);
    assert_ne!(b, c);
}

#[test]
fn verification_rejects_a_substituted_address_or_disambiguator() {
    let program = program();
    let maker = addr(11);
    let (address, bump) = escrow_address(&program, &maker, 7).unwrap();
    assert!(verify_escrow_address(&address, &program, &maker, 7, bump));
    assert!(!verify_escrow_address(&addr(99), &program, &maker, 7, bump));
    assert!(!verify_escrow_address(&address, &program, &maker, 8, bump));
    assert!(!verify_escrow_address(&address, &program, &addr(12), 7, bump));
    assert!(!verify_escrow_address(&address, &addr(1), &maker, 7, bump));
    assert!(!verify_escrow_address(&address, &program, &maker, 7, bump.wrapping_sub(1)));
}

#[test]
fn matches_derived_compares_with_what_was_derived() {
    assert!(matches_derived(&addr(1), &Some(addr(1))));
    assert!(!matches_derived(&addr(1), &Some(addr(2))));
    assert!(!matches_derived(&addr(1), &None));
}

#[test]
fn token_program_identities_are_the_known_ones() {
    assert_eq!(
        anchor_spl::token::ID.to_bytes(),
        [
            6, 221, 246, 225, 215, 101, 161, 147, 217, 203, 225, 70, 206, 235, 121, 172, 28, 180,
            133, 237, 95, 91, 55, 145, 58, 140, 245, 133, 126, 255, 0, 169
        ]
    );
    assert_eq!(
        anchor_spl::associated_token::ID.to_bytes(),
        [
            140, 151, 37, 143, 78, 36, 137, 241, 187, 61, 16, 41, 20, 142, 13, 131, 11, 90, 19, 153,
            218, 255, 16, 132, 4, 142, 123, 216, 219, 233, 248, 89
        ]
    );
}

#[test]
fn associated_address_is_derived_under_the_known_identities() {
    let wallet = addr(21);
    let mint = addr(22);
    let seeds = vec![
        wallet.to_vec(),
        anchor_spl::token::ID.to_bytes().to_vec(),
        mint.to_vec(),
    ];
    let namespace = Address::new(anchor_spl::associated_token::ID.to_bytes());
    let expected = find_program_address(seeds, &namespace).map(|found| found.0);
    assert!(expected.is_some());
    assert_eq!(associated_token_address(&wallet, &mint), expected);
}

#[test]
fn associated_address_agrees_with_the_outside_derivation() {
    for n in 0u8..20 {
        let wallet = addr(n);
        let mint = addr(n.wrapping_mul(7).wrapping_add(3));
        let ours = associated_token_address(&wallet, &mint).unwrap();
        let theirs = anchor_spl::associated_token::get_associated_token_address_with_program_id(
            &key(&wallet),
            &key(&mint),
            &anchor_spl::token::ID,
        );
        assert_eq!(key(&ours), theirs);
    }
}

#[test]
fn associated_address_differs_by_wallet_and_asset() {
    let a = associated_token_address(&addr(1), &addr(2)).unwrap();
    let b = associated_token_address(&addr(2), &addr(1)).unwrap();
    let c = associated_token_address(&addr(1), &addr(3)).unwrap();
    assert_ne!(a, b);
    assert_ne!(a, c);
    assert_ne!(a, addr(1));
}
