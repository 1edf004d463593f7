use gafi_pallets::primitives::currency::{unit, GafiCurrency, NativeToken, TokenInfo};
use gafi_pallets::primitives::pool::{MasterPool, Service};
use gafi_pallets::primitives::system_services::{SystemPool, SystemService};
use gafi_pallets::primitives::ticket::{PlayerTicket, TicketInfo, TicketType};
use gafi_pallets::primitives::whitelist::{IWhiteList, WhitelistPool};
use gafi_pallets::support::{bytes32_eq, contains_h160, ensure_signed, h160_eq, DispatchError, Origin};

#[test]
fn gafi_token_info() {
    let t = GafiCurrency::token_info(NativeToken::GAFI);
    assert_eq!(t.name, b"GAFI TOKEN".to_vec());
    assert_eq!(t.symbol, b"GAFI".to_vec());
    assert_eq!(t.decimals, 18);
    assert_eq!(t.id, 1);
}

#[test]
fn gaki_token_info() {
    let t = GafiCurrency::token_info(NativeToken::GAKI);
    assert_eq!(t.name, b"GAKI TOKEN".to_vec());
    assert_eq!(t.symbol, b"GAKI".to_vec());
    assert_eq!(t.decimals, 18);
    assert_eq!(t.id, 2);
}

#[test]
fn unit_is_decimals() {
    assert_eq!(unit(NativeToken::GAFI), 18);
    assert_eq!(unit(NativeToken::GAKI), 18);
}

#[test]
fn withdraw_ticket_spends_one() {
    let t = TicketInfo { ticket_type: TicketType::Upfront([1u8; 32]), tickets: 3 };
    assert_eq!(t.withdraw_ticket(), Some(TicketInfo { ticket_type: TicketType::Upfront([1u8; 32]), tickets: 2 }));
}

#[test]
fn withdraw_ticket_empty() {
    let t = TicketInfo { ticket_type: TicketType::Staking([1u8; 32]), tickets: 0 };
    assert_eq!(t.withdraw_ticket(), None);
}

#[test]
fn renew_ticket_sets_count() {
    let t = TicketInfo { ticket_type: TicketType::Sponsored([2u8; 32]), tickets: 0 };
    let r = t.renew_ticket(40);
    assert_eq!(r, TicketInfo { ticket_type: TicketType::Sponsored([2u8; 32]), tickets: 40 });
    assert_eq!(r.withdraw_ticket().unwrap().tickets, 39);
}

#[test]
fn system_service_new() {
    let s = SystemService::new([3u8; 32], 100, 30_000, 5);
    assert_eq!(s.id, [3u8; 32]);
    assert_eq!(s.service, Service { tx_limit: 100, discount: 30_000 });
    assert_eq!(s.value, 5);
}

#[test]
fn unit_master_pool() {
    let m = ();
    assert_eq!(MasterPool::<[u8; 32]>::get_timeservice(&m), 1_800_000);
    assert_eq!(MasterPool::<[u8; 32]>::get_marktime(&m), 0);
}

#[test]
fn unit_system_pool() {
    let mut p = ();
    assert_eq!(SystemPool::<[u8; 32], [u8; 32]>::join(&mut p, [1u8; 32], [2u8; 32]), Ok(()));
    assert_eq!(SystemPool::<[u8; 32], [u8; 32]>::leave(&mut p, [1u8; 32]), Ok(()));
    assert!(SystemPool::<[u8; 32], [u8; 32]>::get_service(&p, [2u8; 32]).is_none());
    assert!(SystemPool::<[u8; 32], [u8; 32]>::get_ticket(&p, [1u8; 32]).is_none());
}

#[test]
fn unit_player_ticket() {
    let mut p = ();
    assert_eq!(PlayerTicket::<[u8; 32]>::use_ticket(&mut p, [1u8; 32], None), None);
    assert_eq!(PlayerTicket::<[u8; 32]>::get_service(&p, [1u8; 32]), None);
    assert!(PlayerTicket::<[u8; 32]>::get_targets(&p, [1u8; 32]).is_empty());
}

#[test]
fn unit_whitelist_pool() {
    let mut p = ();
    assert_eq!(WhitelistPool::<[u8; 32]>::join_pool(&mut p, [1u8; 32], [2u8; 32]), Err("default"));
    assert!(!WhitelistPool::<[u8; 32]>::is_joined_pool(&p, [1u8; 32], [2u8; 32]));
}

#[test]
fn unit_iwhitelist() {
    let mut p = ();
    assert!(!IWhiteList::<[u8; 32]>::is_whitelist(&p, [2u8; 32]));
    assert_eq!(IWhiteList::<[u8; 32]>::insert_whitelist(&mut p, [2u8; 32], [1u8; 32]), Err("default"));
}

#[test]
fn ensure_signed_cases() {
    assert_eq!(ensure_signed(Origin::Signed([7u8; 32])), Ok([7u8; 32]));
    assert_eq!(ensure_signed(Origin::Root), Err(DispatchError::BadOrigin));
    assert_eq!(ensure_signed(Origin::Unsigned), Err(DispatchError::BadOrigin));
}

#[test]
fn byte_key_equality() {
    let mut b = [5u8; 32];
    assert!(bytes32_eq(&[5u8; 32], &b));
    b[31] = 6;
    assert!(!bytes32_eq(&[5u8; 32], &b));
    assert!(h160_eq(&[1u8; 20], &[1u8; 20]));
    assert!(!h160_eq(&[1u8; 20], &[2u8; 20]));
}

#[test]
fn contains_target() {
    let targets = vec![[1u8; 20], [2u8; 20]];
    assert!(contains_h160(&targets, &[2u8; 20]));
    assert!(!contains_h160(&targets, &[3u8; 20]));
    assert!(!contains_h160(&Vec::new(), &[3u8; 20]));
}
