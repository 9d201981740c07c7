use giftsol::address::{find_giftcard_address, find_global_state_address};
use giftsol::{
    process, Address, CouponCreate, CouponWithdraw, Effect, GiftError, GlobalState, Initialize,
    Instruction, Rejection, UpdateFeeSettings,
};

fn address(tag: u8) -> Address {
    Address::new([tag; 32])
}

#[test]
fn a_card_from_first_setup_to_redemption() {
    let program = address(7);
    let admin = address(1);
    let creator = address(3);
    let claimer = address(4);
    let treasury = address(2);

    let (settings_key, _) = find_global_state_address(&program).unwrap();
    let effect = process(Instruction::Initialize {
        accounts: Initialize {
            program_id: program,
            global_state_key: settings_key,
            global_state: None,
            admin,
        },
    })
    .unwrap();
    let state = match effect {
        Effect::Initialized { accounts } => accounts.global_state.unwrap(),
        other => panic!("unexpected effect {:?}", other),
    };
    assert_eq!(state.fee_percentage, 2);

    let effect = process(Instruction::UpdateFeeSettings {
        accounts: UpdateFeeSettings { global_state: state, admin },
        fee_percentage: 2,
        fee_receiver: treasury,
    })
    .unwrap();
    let state = match effect {
        Effect::Updated { accounts } => accounts.global_state,
        other => panic!("unexpected effect {:?}", other),
    };
    assert_eq!(state.fee_receiver.bytes, treasury.bytes);

    let (card_key, _) = find_giftcard_address(&program, &creator, 1).unwrap();
    let effect = process(Instruction::CreateGiftcard {
        accounts: CouponCreate {
            program_id: program,
            giftcard_key: card_key,
            giftcard: None,
            global_state: state,
            fee_receiver: treasury,
            creator,
        },
        seed: 1,
        coupon_code: String::from("WELCOME"),
        amount: 1000,
    })
    .unwrap();
    let card = match effect {
        Effect::Created { accounts, transfers } => {
            assert_eq!(transfers.fee.amount, 20);
            assert_eq!(transfers.fee.to.bytes, treasury.bytes);
            assert_eq!(transfers.escrow.amount, 980);
            assert_eq!(transfers.escrow.to.bytes, card_key.bytes);
            accounts.giftcard.unwrap()
        }
        other => panic!("unexpected effect {:?}", other),
    };
    assert_eq!(card.amount, 980);

    let rejected = process(Instruction::Avail {
        accounts: CouponWithdraw {
            program_id: program,
            giftcard_key: card_key,
            giftcard: Some(card),
            claimer,
        },
        coupon_code: String::from("welcome"),
    });
    assert_eq!(rejected.unwrap_err(), Rejection::Program(GiftError::InvalidCouponCode));

    let effect = process(Instruction::Avail {
        accounts: CouponWithdraw {
            program_id: program,
            giftcard_key: card_key,
            giftcard: Some(card),
            claimer,
        },
        coupon_code: String::from("WELCOME"),
    })
    .unwrap();
    match effect {
        Effect::Redeemed { accounts, close } => {
            assert!(accounts.giftcard.is_none());
            assert_eq!(close.escrowed, 980);
            assert_eq!(close.destination.bytes, claimer.bytes);
            assert_eq!(close.account.bytes, card_key.bytes);
        }
        other => panic!("unexpected effect {:?}", other),
    }
}

#[test]
fn rejections_come_through_the_entry_point() {
    let state = GlobalState {
        admin: address(1),
        fee_percentage: 2,
        fee_receiver: address(1),
        bump: 255,
    };
    let rejected = process(Instruction::UpdateFeeSettings {
        accounts: UpdateFeeSettings { global_state: state, admin: address(9) },
        fee_percentage: 50,
        fee_receiver: address(9),
    });
    assert_eq!(rejected.unwrap_err(), Rejection::Program(GiftError::Unauthorized));

    let (card_key, _) = find_giftcard_address(&address(7), &address(3), 1).unwrap();
    let rejected = process(Instruction::CreateGiftcard {
        accounts: CouponCreate {
            program_id: address(7),
            giftcard_key: card_key,
            giftcard: None,
            global_state: state,
            fee_receiver: address(1),
            creator: address(3),
        },
        seed: 1,
        coupon_code: String::from("code"),
        amount: 0,
    });
    assert_eq!(rejected.unwrap_err(), Rejection::Program(GiftError::InsufficientAmount));

    let rejected = process(Instruction::Avail {
        accounts: CouponWithdraw {
            program_id: address(7),
            giftcard_key: card_key,
            giftcard: None,
            claimer: address(4),
        },
        coupon_code: String::from("code"),
    });
    assert_eq!(rejected.unwrap_err(), Rejection::AccountMissing);
}
