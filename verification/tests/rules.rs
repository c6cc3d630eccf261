use erc6909_stylus::address::Address;
use erc6909_stylus::event::LedgerError;
use erc6909_stylus::rules::{
    authorize, settle_burn, settle_mint, settle_transfer, Authority, Holding, Transfer,
};
use erc6909_stylus::word::U256;

fn max() -> U256 {
    U256::from_limbs([u64::MAX; 4])
}

fn alice() -> Address {
    Address::from_low_u64_be(1)
}

fn bob() -> Address {
    Address::from_low_u64_be(2)
}

fn charlie() -> Address {
    Address::from_low_u64_be(3)
}

#[test]
fn owner_is_authorized_first() {
    // The owner is authorized as owner even where the other grounds hold too.
    assert_eq!(
        authorize(alice(), alice(), true, U256::from(50), U256::from(10)),
        Ok((Authority::Owner, U256::from(50)))
    );
    assert_eq!(
        authorize(alice(), alice(), false, U256::zero(), U256::from(10)),
        Ok((Authority::Owner, U256::zero()))
    );
}

#[test]
fn operator_is_authorized_before_the_allowance() {
    assert_eq!(
        authorize(bob(), alice(), true, U256::from(50), U256::from(10)),
        Ok((Authority::Operator, U256::from(50)))
    );
    assert_eq!(
        authorize(bob(), alice(), true, U256::zero(), U256::from(10)),
        Ok((Authority::Operator, U256::zero()))
    );
}

#[test]
fn allowance_authorizes_up_to_its_amount() {
    assert_eq!(
        authorize(charlie(), alice(), false, U256::from(50), U256::from(10)),
        Ok((Authority::Allowance, U256::from(40)))
    );
    assert_eq!(
        authorize(charlie(), alice(), false, U256::from(50), U256::from(50)),
        Ok((Authority::Allowance, U256::zero()))
    );
    assert_eq!(
        authorize(charlie(), alice(), false, U256::from(50), U256::from(51)),
        Err(LedgerError::Unauthorized)
    );
    assert_eq!(
        authorize(charlie(), alice(), false, U256::zero(), U256::zero()),
        Ok((Authority::Allowance, U256::zero()))
    );
}

#[test]
fn transfer_moves_the_amount() {
    assert_eq!(
        settle_transfer(
            charlie(),
            alice(),
            bob(),
            false,
            U256::from(20),
            U256::from(60),
            U256::from(40),
            U256::from(15)
        ),
        Ok(Transfer {
            authority: Authority::Allowance,
            allowance: U256::from(5),
            from_balance: U256::from(45),
            to_balance: U256::from(55),
        })
    );
}

#[test]
fn settled_transfer_to_oneself_keeps_the_balance() {
    assert_eq!(
        settle_transfer(
            alice(),
            alice(),
            alice(),
            false,
            U256::zero(),
            U256::from(60),
            U256::from(60),
            U256::from(15)
        ),
        Ok(Transfer {
            authority: Authority::Owner,
            allowance: U256::zero(),
            from_balance: U256::from(60),
            to_balance: U256::from(60),
        })
    );
    // Even a full receiver's balance does not overflow where sender and receiver are one.
    assert_eq!(
        settle_transfer(alice(), alice(), alice(), false, U256::zero(), max(), max(), max()),
        Ok(Transfer {
            authority: Authority::Owner,
            allowance: U256::zero(),
            from_balance: max(),
            to_balance: max(),
        })
    );
    // It still needs the balance.
    assert_eq!(
        settle_transfer(
            alice(),
            alice(),
            alice(),
            false,
            U256::zero(),
            U256::from(60),
            U256::from(60),
            U256::from(61)
        ),
        Err(LedgerError::InsufficientBalance)
    );
}

#[test]
fn transfer_checks_authority_before_balance() {
    assert_eq!(
        settle_transfer(
            charlie(),
            alice(),
            bob(),
            false,
            U256::from(5),
            U256::from(35),
            U256::from(65),
            U256::from(1000)
        ),
        Err(LedgerError::Unauthorized)
    );
    assert_eq!(
        settle_transfer(
            charlie(),
            alice(),
            bob(),
            false,
            U256::from(2000),
            U256::from(35),
            U256::from(65),
            U256::from(1000)
        ),
        Err(LedgerError::InsufficientBalance)
    );
}

#[test]
fn transfer_checks_balance_before_overflow() {
    assert_eq!(
        settle_transfer(alice(), alice(), bob(), false, U256::zero(), U256::from(1), max(), U256::from(2)),
        Err(LedgerError::InsufficientBalance)
    );
    assert_eq!(
        settle_transfer(alice(), alice(), bob(), false, U256::zero(), U256::from(2), max(), U256::from(2)),
        Err(LedgerError::Overflow)
    );
    assert_eq!(
        settle_transfer(alice(), alice(), bob(), false, U256::zero(), U256::from(2), max(), U256::zero()),
        Ok(Transfer {
            authority: Authority::Owner,
            allowance: U256::zero(),
            from_balance: U256::from(2),
            to_balance: max(),
        })
    );
}

#[test]
fn mint_raises_balance_and_supply() {
    assert_eq!(
        settle_mint(U256::from(10), U256::from(30), U256::from(5)),
        Ok(Holding { balance: U256::from(15), supply: U256::from(35) })
    );
    assert_eq!(
        settle_mint(U256::zero(), U256::zero(), max()),
        Ok(Holding { balance: max(), supply: max() })
    );
}

#[test]
fn mint_overflows_on_balance_or_supply() {
    assert_eq!(settle_mint(U256::from(10), max(), U256::from(1)), Err(LedgerError::Overflow));
    assert_eq!(settle_mint(max(), U256::from(10), U256::from(1)), Err(LedgerError::Overflow));
    assert_eq!(settle_mint(max(), max(), U256::from(1)), Err(LedgerError::Overflow));
}

#[test]
fn burn_lowers_balance_and_supply() {
    assert_eq!(
        settle_burn(U256::from(10), U256::from(30), U256::from(4)),
        Ok(Holding { balance: U256::from(6), supply: U256::from(26) })
    );
    assert_eq!(
        settle_burn(U256::from(10), U256::from(10), U256::from(10)),
        Ok(Holding { balance: U256::zero(), supply: U256::zero() })
    );
}

#[test]
fn burn_needs_the_balance_and_then_the_supply() {
    assert_eq!(
        settle_burn(U256::from(10), U256::from(30), U256::from(11)),
        Err(LedgerError::InsufficientBalance)
    );
    assert_eq!(
        settle_burn(U256::from(10), U256::from(5), U256::from(11)),
        Err(LedgerError::InsufficientBalance)
    );
    assert_eq!(
        settle_burn(U256::from(10), U256::from(5), U256::from(6)),
        Err(LedgerError::Underflow)
    );
}
