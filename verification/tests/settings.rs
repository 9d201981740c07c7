use giftsol::address::find_global_state_address;
use giftsol::settings::{
    initialize, initialize_at, update_fee_settings, Initialize, InitializeBumps,
    UpdateFeeSettings, DEFAULT_FEE_PERCENTAGE,
};
use giftsol::state::{Address, GiftError, GlobalState, Rejection};

fn address(tag: u8) -> Address {
    Address::new([tag; 32])
}

fn fresh(program: Address, admin: Address) -> Initialize {
    let (key, _) = find_global_state_address(&program).unwrap();
    Initialize { program_id: program, global_state_key: key, global_state: None, admin }
}

#[test]
fn initialize_creates_the_settings() {
    let program = address(7);
    let admin = address(1);
    let mut ctx = fresh(program, admin);
    let (key, bump) = find_global_state_address(&program).unwrap();
    assert_eq!(initialize(&mut ctx), Ok(()));
    let state = ctx.global_state.unwrap();
    assert_eq!(state.admin.bytes, admin.bytes);
    assert_eq!(state.fee_receiver.bytes, admin.bytes);
    assert_eq!(state.fee_percentage, 2);
    assert_eq!(DEFAULT_FEE_PERCENTAGE, 2);
    assert_eq!(state.bump, bump);
    assert_eq!(ctx.global_state_key.bytes, key.bytes);
    assert_eq!(ctx.admin.bytes, admin.bytes);
}

#[test]
fn initialize_runs_once() {
    let mut ctx = fresh(address(7), address(1));
    assert_eq!(initialize(&mut ctx), Ok(()));
    ctx.admin = address(2);
    assert_eq!(initialize(&mut ctx), Err(Rejection::AccountInUse));
    let state = ctx.global_state.unwrap();
    assert_eq!(state.admin.bytes, [1u8; 32]);
    assert_eq!(state.fee_receiver.bytes, [1u8; 32]);
}

#[test]
fn initialize_refuses_another_address() {
    let mut ctx = fresh(address(7), address(1));
    ctx.global_state_key = address(9);
    assert_eq!(initialize(&mut ctx), Err(Rejection::SeedsMismatch));
    assert!(ctx.global_state.is_none());
}

#[test]
fn init_writes_what_it_is_given() {
    let mut ctx = fresh(address(7), address(1));
    let result = ctx.init(40, address(5), &InitializeBumps { global_state: 250 });
    assert_eq!(result, Ok(()));
    let state = ctx.global_state.unwrap();
    assert_eq!(state.admin.bytes, [1u8; 32]);
    assert_eq!(state.fee_percentage, 40);
    assert_eq!(state.fee_receiver.bytes, [5u8; 32]);
    assert_eq!(state.bump, 250);
}

fn settings(admin: Address, signer: Address) -> UpdateFeeSettings {
    UpdateFeeSettings {
        global_state: GlobalState {
            admin,
            fee_percentage: 2,
            fee_receiver: admin,
            bump: 254,
        },
        admin: signer,
    }
}

#[test]
fn admin_updates_the_settings() {
    let mut ctx = settings(address(1), address(1));
    assert_eq!(update_fee_settings(&mut ctx, 5, address(3)), Ok(()));
    assert_eq!(ctx.global_state.fee_percentage, 5);
    assert_eq!(ctx.global_state.fee_receiver.bytes, [3u8; 32]);
    assert_eq!(ctx.global_state.admin.bytes, [1u8; 32]);
    assert_eq!(ctx.global_state.bump, 254);
}

#[test]
fn stranger_cannot_update_the_settings() {
    let mut ctx = settings(address(1), address(2));
    assert_eq!(
        update_fee_settings(&mut ctx, 5, address(3)),
        Err(Rejection::Program(GiftError::Unauthorized))
    );
    assert_eq!(ctx, settings(address(1), address(2)));
    assert_eq!(ctx.global_state.fee_percentage, 2);
    assert_eq!(ctx.global_state.fee_receiver.bytes, [1u8; 32]);
    assert_eq!(ctx.global_state.admin.bytes, [1u8; 32]);
    assert_eq!(ctx.global_state.bump, 254);
}

#[test]
fn signer_differing_in_one_byte_is_a_stranger() {
    let mut bytes = [1u8; 32];
    bytes[31] = 0;
    let mut ctx = settings(address(1), Address::new(bytes));
    assert_eq!(
        update_fee_settings(&mut ctx, 5, address(3)),
        Err(Rejection::Program(GiftError::Unauthorized))
    );
}

#[test]
fn percentage_is_not_bounded() {
    let mut ctx = settings(address(1), address(1));
    assert_eq!(update_fee_settings(&mut ctx, 255, address(1)), Ok(()));
    assert_eq!(ctx.global_state.fee_percentage, 255);
}

#[test]
fn handler_overwrites_without_asking_who_signs() {
    let mut ctx = settings(address(1), address(2));
    assert_eq!(ctx.update_fee_settings(9, address(4)), Ok(()));
    assert_eq!(ctx.global_state.fee_percentage, 9);
    assert_eq!(ctx.global_state.fee_receiver.bytes, [4u8; 32]);
    assert_eq!(ctx.global_state.admin.bytes, [1u8; 32]);
}

#[test]
fn error_messages() {
    assert_eq!(GiftError::InvalidCouponCode.message(), "Invalid Coupon Code");
    assert_eq!(GiftError::InsufficientAmount.message(), "Insufficient Amount");
    assert_eq!(GiftError::Unauthorized.message(), "Unauthorized");
}

#[test]
fn initialization_follows_what_the_search_found() {
    let mut ctx = Initialize {
        program_id: address(7),
        global_state_key: address(9),
        global_state: None,
        admin: address(1),
    };
    assert_eq!(initialize_at(&mut ctx, None), Err(Rejection::SeedsMismatch));
    assert!(ctx.global_state.is_none());
    assert_eq!(
        initialize_at(&mut ctx, Some((address(8), 200))),
        Err(Rejection::SeedsMismatch)
    );
    assert!(ctx.global_state.is_none());
    assert_eq!(initialize_at(&mut ctx, Some((address(9), 200))), Ok(()));
    let state = ctx.global_state.unwrap();
    assert_eq!(state.bump, 200);
    assert_eq!(state.fee_percentage, 2);
    assert_eq!(state.admin.bytes, [1u8; 32]);
    assert_eq!(state.fee_receiver.bytes, [1u8; 32]);
    assert_eq!(
        initialize_at(&mut ctx, Some((address(9), 200))),
        Err(Rejection::AccountInUse)
    );
}
