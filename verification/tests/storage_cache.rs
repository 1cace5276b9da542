use storage_pallets::storage_cache::{
    first_addition, join_verdict, second_addition, signed_by, swap_verdict, Error, Event, Group,
    Pallet,
};
use storage_pallets::system::Origin;

const A: u64 = 1;
const B: u64 = 2;

#[test]
fn increase_with_copy_adds_the_counter_twice() {
    let mut pallet = Pallet::new();
    assert_eq!(pallet.some_copy_value(), None);
    assert_eq!(pallet.set_copy(Origin::Signed(A), 100), Ok(()));
    assert_eq!(pallet.increase_value_w_copy(Origin::Signed(A), 50, 3), Ok(()));
    assert_eq!(pallet.some_copy_value(), Some(250));
    assert_eq!(pallet.events(), &vec![Event::BetterValueChange(250, 3)]);
    assert_eq!(pallet.value_reads(), 1);
}

#[test]
fn increase_without_cache_adds_the_counter_twice() {
    let mut pallet = Pallet::new();
    assert_eq!(pallet.set_copy(Origin::Signed(A), 100), Ok(()));
    assert_eq!(pallet.increase_value_no_cache(Origin::Signed(A), 50, 9), Ok(()));
    assert_eq!(pallet.some_copy_value(), Some(250));
    assert_eq!(pallet.events(), &vec![Event::InefficientValueChange(250, 9)]);
    assert_eq!(pallet.value_reads(), 2);
}

#[test]
fn the_two_increases_store_the_same_and_differ_by_one_read() {
    for (start, delta) in [(0u32, 0u32), (100, 50), (7, u32::MAX - 14), (1, 0)] {
        let mut twice = Pallet::new();
        let mut once = Pallet::new();
        assert_eq!(twice.set_copy(Origin::Signed(A), start), Ok(()));
        assert_eq!(once.set_copy(Origin::Signed(A), start), Ok(()));
        assert_eq!(twice.increase_value_no_cache(Origin::Signed(B), delta, 1), Ok(()));
        assert_eq!(once.increase_value_w_copy(Origin::Signed(B), delta, 1), Ok(()));
        assert_eq!(twice.some_copy_value(), once.some_copy_value());
        assert_eq!(twice.some_copy_value(), Some(start + delta + start));
        assert_eq!(twice.value_reads(), once.value_reads() + 1);
    }
}

#[test]
fn increase_of_an_unset_counter_fails() {
    let mut twice = Pallet::new();
    let mut once = Pallet::new();
    assert_eq!(
        twice.increase_value_no_cache(Origin::Signed(A), 1, 0),
        Err(Error::Uninitialized)
    );
    assert_eq!(
        once.increase_value_w_copy(Origin::Signed(A), 1, 0),
        Err(Error::Uninitialized)
    );
    assert_eq!(twice.some_copy_value(), None);
    assert_eq!(once.some_copy_value(), None);
    assert!(twice.events().is_empty());
    assert!(once.events().is_empty());
    assert_eq!(twice.value_reads(), 1);
    assert_eq!(once.value_reads(), 1);
}

#[test]
fn increase_that_overflows_in_the_first_addition_fails() {
    let mut twice = Pallet::new();
    let mut once = Pallet::new();
    assert_eq!(twice.set_copy(Origin::Signed(A), 10), Ok(()));
    assert_eq!(once.set_copy(Origin::Signed(A), 10), Ok(()));
    assert_eq!(
        twice.increase_value_no_cache(Origin::Signed(A), u32::MAX - 9, 0),
        Err(Error::Overflow)
    );
    assert_eq!(
        once.increase_value_w_copy(Origin::Signed(A), u32::MAX - 9, 0),
        Err(Error::Overflow)
    );
    assert_eq!(twice.some_copy_value(), Some(10));
    assert_eq!(once.some_copy_value(), Some(10));
    assert!(twice.events().is_empty());
    assert_eq!(twice.value_reads(), 1);
    assert_eq!(once.value_reads(), 1);
}

#[test]
fn increase_that_overflows_in_the_second_addition_fails() {
    let mut twice = Pallet::new();
    let mut once = Pallet::new();
    assert_eq!(twice.set_copy(Origin::Signed(A), 10), Ok(()));
    assert_eq!(once.set_copy(Origin::Signed(A), 10), Ok(()));
    assert_eq!(
        twice.increase_value_no_cache(Origin::Signed(A), u32::MAX - 19, 0),
        Err(Error::Overflow)
    );
    assert_eq!(
        once.increase_value_w_copy(Origin::Signed(A), u32::MAX - 19, 0),
        Err(Error::Overflow)
    );
    assert_eq!(twice.some_copy_value(), Some(10));
    assert_eq!(once.some_copy_value(), Some(10));
    assert!(once.events().is_empty());
    assert_eq!(twice.value_reads(), 2);
    assert_eq!(once.value_reads(), 1);
}

#[test]
fn increase_to_the_maximum_goes_through() {
    let mut pallet = Pallet::new();
    assert_eq!(pallet.set_copy(Origin::Signed(A), 10), Ok(()));
    assert_eq!(
        pallet.increase_value_no_cache(Origin::Signed(A), u32::MAX - 20, 4),
        Ok(())
    );
    assert_eq!(pallet.some_copy_value(), Some(u32::MAX));
}

#[test]
fn swap_with_cache_replaces_a_king_who_is_no_member() {
    let mut pallet = Pallet::new();
    assert_eq!(pallet.mock_add_member(Origin::Signed(B)), Ok(()));
    assert_eq!(pallet.king_member(), None);
    assert_eq!(pallet.set_king(Origin::Signed(A)), Ok(()));
    assert_eq!(pallet.king_member(), Some(A));
    assert_eq!(pallet.swap_king_with_cache(Origin::Signed(B)), Ok(()));
    assert_eq!(pallet.king_member(), Some(B));
    assert_eq!(pallet.events(), &vec![Event::BetterKingSwap(A, B)]);
    assert_eq!(pallet.king_reads(), 1);
}

#[test]
fn swap_without_cache_replaces_a_king_who_is_no_member() {
    let mut pallet = Pallet::new();
    assert_eq!(pallet.mock_add_member(Origin::Signed(B)), Ok(()));
    assert_eq!(pallet.set_king(Origin::Signed(A)), Ok(()));
    assert_eq!(pallet.swap_king_no_cache(Origin::Signed(B)), Ok(()));
    assert_eq!(pallet.king_member(), Some(B));
    assert_eq!(pallet.events(), &vec![Event::InefficientKingSwap(A, B)]);
    assert_eq!(pallet.king_reads(), 2);
}

#[test]
fn a_king_who_is_a_member_keeps_the_throne() {
    let mut pallet = Pallet::new();
    assert_eq!(pallet.mock_add_member(Origin::Signed(A)), Ok(()));
    assert_eq!(pallet.set_king(Origin::Signed(A)), Ok(()));
    assert_eq!(
        pallet.swap_king_no_cache(Origin::Signed(B)),
        Err(Error::PriorityHeld)
    );
    assert_eq!(pallet.king_member(), Some(A));
    assert_eq!(
        pallet.swap_king_with_cache(Origin::Signed(B)),
        Err(Error::PriorityHeld)
    );
    assert_eq!(pallet.king_member(), Some(A));
    assert!(pallet.events().is_empty());
    assert_eq!(pallet.king_reads(), 2);
}

#[test]
fn a_member_king_keeps_the_throne_against_a_member() {
    let mut pallet = Pallet::new();
    assert_eq!(pallet.mock_add_member(Origin::Signed(A)), Ok(()));
    assert_eq!(pallet.mock_add_member(Origin::Signed(B)), Ok(()));
    assert_eq!(pallet.set_king(Origin::Signed(A)), Ok(()));
    assert_eq!(
        pallet.swap_king_with_cache(Origin::Signed(B)),
        Err(Error::PriorityHeld)
    );
    assert_eq!(pallet.king_member(), Some(A));
}

#[test]
fn a_caller_who_is_no_member_cannot_be_king() {
    let mut pallet = Pallet::new();
    assert_eq!(pallet.set_king(Origin::Signed(A)), Ok(()));
    assert_eq!(
        pallet.swap_king_no_cache(Origin::Signed(B)),
        Err(Error::NotEligible)
    );
    assert_eq!(
        pallet.swap_king_with_cache(Origin::Signed(B)),
        Err(Error::NotEligible)
    );
    assert_eq!(pallet.king_member(), Some(A));
    assert!(pallet.events().is_empty());
}

#[test]
fn swap_without_a_king_fails() {
    let mut pallet = Pallet::new();
    assert_eq!(pallet.mock_add_member(Origin::Signed(B)), Ok(()));
    assert_eq!(
        pallet.swap_king_no_cache(Origin::Signed(B)),
        Err(Error::NoIncumbent)
    );
    assert_eq!(
        pallet.swap_king_with_cache(Origin::Signed(B)),
        Err(Error::NoIncumbent)
    );
    assert_eq!(pallet.king_member(), None);
    assert!(pallet.events().is_empty());
    assert_eq!(pallet.king_reads(), 2);
}

#[test]
fn set_king_overwrites_and_announces_nothing() {
    let mut pallet = Pallet::new();
    assert_eq!(pallet.set_king(Origin::Signed(A)), Ok(()));
    assert_eq!(pallet.set_king(Origin::Signed(B)), Ok(()));
    assert_eq!(pallet.king_member(), Some(B));
    assert!(pallet.events().is_empty());
    assert_eq!(pallet.king_reads(), 0);
}

#[test]
fn set_copy_overwrites_and_announces_nothing() {
    let mut pallet = Pallet::new();
    assert_eq!(pallet.set_copy(Origin::Signed(A), 1), Ok(()));
    assert_eq!(pallet.set_copy(Origin::Signed(B), 0), Ok(()));
    assert_eq!(pallet.some_copy_value(), Some(0));
    assert!(pallet.events().is_empty());
    assert_eq!(pallet.value_reads(), 0);
}

#[test]
fn add_member_twice_fails_the_second_time() {
    let mut pallet = Pallet::new();
    assert!(!pallet.is_member(&A));
    assert_eq!(pallet.mock_add_member(Origin::Signed(A)), Ok(()));
    assert!(pallet.is_member(&A));
    assert_eq!(
        pallet.mock_add_member(Origin::Signed(A)),
        Err(Error::AlreadyMember)
    );
    assert!(pallet.is_member(&A));
    assert_eq!(pallet.group_members(), &vec![A]);
    assert!(pallet.events().is_empty());
}

#[test]
fn members_are_kept_in_the_order_they_joined() {
    let mut pallet = Pallet::new();
    assert!(pallet.group_members().is_empty());
    assert_eq!(pallet.mock_add_member(Origin::Signed(5)), Ok(()));
    assert_eq!(pallet.mock_add_member(Origin::Signed(3)), Ok(()));
    assert_eq!(pallet.mock_add_member(Origin::Signed(5)), Err(Error::AlreadyMember));
    assert_eq!(pallet.mock_add_member(Origin::Signed(4)), Ok(()));
    assert_eq!(pallet.group_members(), &vec![5, 3, 4]);
    assert!(pallet.is_member(&3));
    assert!(!pallet.is_member(&6));
}

#[test]
fn unsigned_calls_to_the_cache_are_turned_down() {
    let mut pallet = Pallet::new();
    assert_eq!(pallet.set_copy(Origin::Signed(A), 1), Ok(()));
    assert_eq!(pallet.set_king(Origin::Signed(A)), Ok(()));
    assert_eq!(pallet.mock_add_member(Origin::Signed(B)), Ok(()));
    for origin in [Origin::Root, Origin::Unsigned, Origin::Authorized] {
        assert_eq!(
            pallet.increase_value_no_cache(origin, 1, 0),
            Err(Error::Unauthenticated)
        );
        assert_eq!(
            pallet.increase_value_w_copy(origin, 1, 0),
            Err(Error::Unauthenticated)
        );
        assert_eq!(pallet.swap_king_no_cache(origin), Err(Error::Unauthenticated));
        assert_eq!(pallet.swap_king_with_cache(origin), Err(Error::Unauthenticated));
        assert_eq!(pallet.set_copy(origin, 9), Err(Error::Unauthenticated));
        assert_eq!(pallet.set_king(origin), Err(Error::Unauthenticated));
        assert_eq!(pallet.mock_add_member(origin), Err(Error::Unauthenticated));
    }
    assert_eq!(pallet.some_copy_value(), Some(1));
    assert_eq!(pallet.king_member(), Some(A));
    assert_eq!(pallet.group_members(), &vec![B]);
    assert!(pallet.events().is_empty());
    assert_eq!(pallet.value_reads(), 0);
    assert_eq!(pallet.king_reads(), 0);
}

#[test]
fn the_counter_and_the_king_do_not_touch_each_other() {
    let mut pallet = Pallet::new();
    assert_eq!(pallet.set_copy(Origin::Signed(A), 4), Ok(()));
    assert_eq!(pallet.set_king(Origin::Signed(A)), Ok(()));
    assert_eq!(pallet.mock_add_member(Origin::Signed(B)), Ok(()));
    assert_eq!(pallet.increase_value_w_copy(Origin::Signed(B), 1, 0), Ok(()));
    assert_eq!(pallet.king_member(), Some(A));
    assert_eq!(pallet.king_reads(), 0);
    assert_eq!(pallet.swap_king_with_cache(Origin::Signed(B)), Ok(()));
    assert_eq!(pallet.some_copy_value(), Some(9));
    assert_eq!(pallet.value_reads(), 1);
}

#[test]
fn a_group_takes_each_account_once() {
    let mut group = Group::new();
    assert!(!group.contains(8));
    assert!(group.join(8));
    assert!(group.contains(8));
    assert!(!group.join(8));
    assert!(group.join(2));
    assert_eq!(group.members(), &vec![8, 2]);
}

#[test]
fn the_first_addition_needs_a_counter_that_fits() {
    assert_eq!(first_addition(Some(100), 50), Ok(150));
    assert_eq!(first_addition(Some(0), u32::MAX), Ok(u32::MAX));
    assert_eq!(first_addition(Some(1), u32::MAX), Err(Error::Overflow));
    assert_eq!(first_addition(None, 50), Err(Error::Uninitialized));
    assert_eq!(first_addition(None, u32::MAX), Err(Error::Uninitialized));
}

#[test]
fn the_second_addition_needs_a_counter_that_fits() {
    assert_eq!(second_addition(150, Some(100)), Ok(250));
    assert_eq!(second_addition(u32::MAX - 1, Some(1)), Ok(u32::MAX));
    assert_eq!(second_addition(u32::MAX, Some(1)), Err(Error::Overflow));
    assert_eq!(second_addition(150, None), Err(Error::Uninitialized));
}

#[test]
fn the_swap_verdict_names_the_first_obstacle() {
    assert_eq!(swap_verdict(Some(false), true), Ok(()));
    assert_eq!(swap_verdict(Some(false), false), Err(Error::NotEligible));
    assert_eq!(swap_verdict(Some(true), true), Err(Error::PriorityHeld));
    assert_eq!(swap_verdict(Some(true), false), Err(Error::PriorityHeld));
    assert_eq!(swap_verdict(None, true), Err(Error::NoIncumbent));
    assert_eq!(swap_verdict(None, false), Err(Error::NoIncumbent));
}

#[test]
fn the_join_verdict_turns_members_down() {
    assert_eq!(join_verdict(false), Ok(()));
    assert_eq!(join_verdict(true), Err(Error::AlreadyMember));
}

#[test]
fn only_a_signer_is_authenticated_for_the_cache() {
    assert_eq!(signed_by(Origin::Signed(5)), Ok(5));
    assert_eq!(signed_by(Origin::Root), Err(Error::Unauthenticated));
    assert_eq!(signed_by(Origin::Unsigned), Err(Error::Unauthenticated));
    assert_eq!(signed_by(Origin::Authorized), Err(Error::Unauthenticated));
}

#[test]
fn a_new_cache_is_empty() {
    let pallet = Pallet::new();
    assert_eq!(pallet.some_copy_value(), None);
    assert_eq!(pallet.king_member(), None);
    assert!(pallet.group_members().is_empty());
    assert!(pallet.events().is_empty());
    assert_eq!(pallet.value_reads(), 0);
    assert_eq!(pallet.king_reads(), 0);
}
