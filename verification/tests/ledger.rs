use meta_ads::{
    AdSpot, CallContext, Claim, ContractError, Creative, InputFault, MetaAdsContract,
    Presentation, RecordKind, Transfer, ONE_NEAR,
};

const NOW: u64 = 1_700_000_000;

fn ctx(caller: &str, seconds: u64, deposit: u128) -> CallContext {
    CallContext {
        predecessor_account_id: caller.to_string(),
        current_account_id: "platform.near".to_string(),
        block_timestamp: seconds * 1_000_000_000,
        attached_deposit: deposit,
    }
}

/// A ledger with the ad spot 1 of `publisher.near` at 5 units and the creative 1 of `alice.near`.
fn stocked() -> MetaAdsContract {
    let mut ledger = MetaAdsContract::default();
    ledger
        .make_adspot(
            &ctx("publisher.near", NOW, 0),
            1,
            5,
            "Front page".to_string(),
            Some(70),
            Some("banner".to_string()),
        )
        .unwrap();
    ledger
        .make_creative(
            &ctx("alice.near", NOW, 0),
            "Spring sale".to_string(),
            "ipfs://spring".to_string(),
            1,
            None,
        )
        .unwrap();
    ledger
}

fn signed() -> MetaAdsContract {
    let mut ledger = stocked();
    ledger.do_agreement(&ctx("alice.near", NOW, 5 * ONE_NEAR), 1, 1, 1, NOW + 10, NOW + 100).unwrap();
    ledger
}

#[test]
fn a_new_ledger_is_empty() {
    let ledger = MetaAdsContract::default();
    assert!(ledger.fetch_all_creatives().is_empty());
    assert!(ledger.fetch_all_adspots().is_empty());
    assert!(ledger.fetch_all_presentations().is_empty());
}

#[test]
fn the_ledger_is_set_up_once() {
    let fresh = MetaAdsContract::initialize(false);
    assert!(fresh.is_ok());
    assert!(fresh.unwrap().fetch_all_creatives().is_empty());
    assert_eq!(MetaAdsContract::initialize(true).err(), Some(ContractError::AlreadyInitialized));
}

#[test]
fn the_clock_counts_whole_seconds() {
    let mut c = ctx("a", 0, 0);
    c.block_timestamp = 1_999_999_999;
    assert_eq!(c.now(), 1);
    c.block_timestamp = 2_000_000_000;
    assert_eq!(c.now(), 2);
    c.block_timestamp = 999_999_999;
    assert_eq!(c.now(), 0);
    c.block_timestamp = u64::MAX;
    assert_eq!(c.now(), 18_446_744_073);
}

#[test]
fn a_registered_creative_is_found_again() {
    let mut ledger = MetaAdsContract::default();
    let made = ledger
        .make_creative(
            &ctx("alice.near", NOW, 0),
            "Spring sale".to_string(),
            "ipfs://spring".to_string(),
            7,
            Some("bafy123".to_string()),
        )
        .unwrap();
    assert_eq!(
        made,
        Creative {
            creative_id: 7,
            name: "Spring sale".to_string(),
            content: "ipfs://spring".to_string(),
            nft_cid: Some("bafy123".to_string()),
            owner_account_id: "alice.near".to_string(),
        }
    );
    assert_eq!(ledger.fetch_creative_by_id(7), Ok(made.clone()));
    let all = ledger.fetch_all_creatives();
    assert_eq!(all.len(), 1);
    assert_eq!(all.get(&7), Some(&made));
}

#[test]
fn a_registered_adspot_is_found_again() {
    let mut ledger = MetaAdsContract::default();
    let made = ledger
        .make_adspot(
            &ctx("publisher.near", NOW, 0),
            3,
            5,
            "Front page".to_string(),
            Some(70),
            Some("banner".to_string()),
        )
        .unwrap();
    assert_eq!(
        made,
        AdSpot {
            adspot_id: 3,
            owner_account_id: "publisher.near".to_string(),
            price: 5_000_000_000_000_000_000_000_000,
            name: "Front page".to_string(),
            publisher_earn: Some(70),
            show_kind: Some("banner".to_string()),
        }
    );
    assert_eq!(ledger.fetch_adspot_by_id(3), Ok(made.clone()));
    let all = ledger.fetch_all_adspots();
    assert_eq!(all.len(), 1);
    assert_eq!(all.get(&3), Some(&made));
}

#[test]
fn one_unit_is_ten_to_the_twenty_fourth() {
    assert_eq!(ONE_NEAR, 10u128.pow(24));
}

#[test]
fn a_creative_is_registered_once() {
    let mut ledger = stocked();
    let first = ledger.fetch_creative_by_id(1).unwrap();
    let again = ledger.make_creative(
        &ctx("bob.near", NOW + 1, 0),
        "Other".to_string(),
        "ipfs://other".to_string(),
        1,
        None,
    );
    assert_eq!(again, Err(ContractError::Conflict(RecordKind::Creative)));
    assert_eq!(ledger.fetch_creative_by_id(1), Ok(first));
    assert_eq!(ledger.fetch_all_creatives().len(), 1);
}

#[test]
fn an_adspot_is_registered_once() {
    let mut ledger = stocked();
    let first = ledger.fetch_adspot_by_id(1).unwrap();
    let again =
        ledger.make_adspot(&ctx("bob.near", NOW + 1, 0), 1, 9, "Other".to_string(), None, None);
    assert_eq!(again, Err(ContractError::Conflict(RecordKind::AdSpot)));
    assert_eq!(ledger.fetch_adspot_by_id(1), Ok(first));
    assert_eq!(ledger.fetch_all_adspots().len(), 1);
}

#[test]
fn a_bad_argument_comes_before_the_conflict() {
    let mut ledger = stocked();
    let again =
        ledger.make_creative(&ctx("alice.near", NOW, 0), String::new(), "x".to_string(), 1, None);
    assert_eq!(again, Err(ContractError::InvalidInput(InputFault::EmptyName)));
}

#[test]
fn creative_arguments_are_checked_in_order() {
    let mut ledger = MetaAdsContract::default();
    let c = ctx("alice.near", NOW, 0);
    let long = "n".repeat(101);
    assert_eq!(
        ledger.make_creative(&c, String::new(), String::new(), 0, None),
        Err(ContractError::InvalidInput(InputFault::CreativeId))
    );
    assert_eq!(
        ledger.make_creative(&c, String::new(), String::new(), 1, None),
        Err(ContractError::InvalidInput(InputFault::EmptyName))
    );
    assert_eq!(
        ledger.make_creative(&c, long, String::new(), 1, None),
        Err(ContractError::InvalidInput(InputFault::LongName))
    );
    assert_eq!(
        ledger.make_creative(&c, "name".to_string(), String::new(), 1, None),
        Err(ContractError::InvalidInput(InputFault::EmptyContent))
    );
    assert!(ledger.fetch_all_creatives().is_empty());
}

#[test]
fn a_name_may_have_a_hundred_characters() {
    let mut ledger = MetaAdsContract::default();
    let c = ctx("alice.near", NOW, 0);
    assert!(ledger.make_creative(&c, "n".repeat(100), "x".to_string(), 1, None).is_ok());
    assert!(ledger.make_adspot(&c, 1, 1, "n".repeat(100), None, None).is_ok());
    assert_eq!(
        ledger.make_adspot(&c, 2, 1, "n".repeat(101), None, None),
        Err(ContractError::InvalidInput(InputFault::LongName))
    );
}

#[test]
fn a_name_is_measured_in_characters() {
    let mut ledger = MetaAdsContract::default();
    let c = ctx("alice.near", NOW, 0);
    let name = "ä".repeat(100);
    assert_eq!(name.len(), 200);
    assert!(ledger.make_creative(&c, name, "x".to_string(), 1, None).is_ok());
    assert_eq!(
        ledger.make_creative(&c, "ä".repeat(101), "x".to_string(), 2, None),
        Err(ContractError::InvalidInput(InputFault::LongName))
    );
}

#[test]
fn adspot_arguments_are_checked_in_order() {
    let mut ledger = MetaAdsContract::default();
    let c = ctx("publisher.near", NOW, 0);
    assert_eq!(
        ledger.make_adspot(&c, 0, 0, String::new(), None, None),
        Err(ContractError::InvalidInput(InputFault::AdSpotId))
    );
    assert_eq!(
        ledger.make_adspot(&c, 1, 0, String::new(), None, None),
        Err(ContractError::InvalidInput(InputFault::Price))
    );
    assert_eq!(
        ledger.make_adspot(&c, 1, u128::MAX, String::new(), None, None),
        Err(ContractError::InvalidInput(InputFault::EmptyName))
    );
    assert_eq!(
        ledger.make_adspot(&c, 1, u128::MAX, "n".repeat(101), None, None),
        Err(ContractError::InvalidInput(InputFault::LongName))
    );
    assert_eq!(
        ledger.make_adspot(&c, 1, u128::MAX, "spot".to_string(), None, None),
        Err(ContractError::InvalidInput(InputFault::PriceRange))
    );
    assert!(ledger.fetch_all_adspots().is_empty());
}

#[test]
fn the_largest_price_that_can_be_scaled() {
    let mut ledger = MetaAdsContract::default();
    let c = ctx("publisher.near", NOW, 0);
    let largest: u128 = u128::MAX / ONE_NEAR;
    assert_eq!(largest, 340_282_366_920_938);
    let spot = ledger.make_adspot(&c, 1, largest, "spot".to_string(), None, None).unwrap();
    assert_eq!(spot.price, 340_282_366_920_938_000_000_000_000_000_000_000_000);
    assert_eq!(
        ledger.make_adspot(&c, 2, largest + 1, "spot".to_string(), None, None),
        Err(ContractError::InvalidInput(InputFault::PriceRange))
    );
}

#[test]
fn an_agreement_is_signed_and_settled() {
    let mut ledger = stocked();
    let deposit: u128 = 5 * ONE_NEAR;
    let agreement =
        ledger.do_agreement(&ctx("alice.near", NOW, deposit), 1, 1, 1, NOW + 10, NOW + 100).unwrap();
    assert_eq!(
        agreement,
        Presentation {
            playback_id: 1,
            adspot_id: 1,
            creative_id: 1,
            advertiser_cost: 5_000_000_000_000_000_000_000_000,
            start_time: NOW + 10,
            end_time: NOW + 100,
            transfered: false,
            advertiser_account_id: "alice.near".to_string(),
            publisher_account_id: "publisher.near".to_string(),
            ad_spot_name: "Front page".to_string(),
            publisher_earn: Some(70),
            show_kind: Some("banner".to_string()),
            entertainment: "platform.near".to_string(),
            entertainment_fee: 500_000_000_000_000_000_000_000,
            status: "signed".to_string(),
        }
    );
    assert_eq!(agreement.entertainment_fee, deposit / 10);
    assert_eq!(ledger.fetch_presentation_by_id(1), Ok(agreement.clone()));

    let paid = ledger.transfer_funds(&ctx("platform.near", NOW + 100, 0), 1);
    assert_eq!(
        paid,
        Ok(Some(Transfer {
            receiver_id: "publisher.near".to_string(),
            amount: 4_500_000_000_000_000_000_000_000,
        }))
    );
    let settled = ledger.fetch_presentation_by_id(1).unwrap();
    assert!(settled.transfered);
    assert_eq!(settled.status, "success");
    assert_eq!(
        settled,
        Presentation { transfered: true, status: "success".to_string(), ..agreement }
    );
}

#[test]
fn a_small_deposit_is_refused() {
    let mut ledger = stocked();
    let refused =
        ledger.do_agreement(&ctx("alice.near", NOW, 4 * ONE_NEAR), 1, 1, 1, NOW + 10, NOW + 100);
    assert_eq!(
        refused,
        Err(ContractError::InsufficientDeposit {
            attached: 4_000_000_000_000_000_000_000_000,
            required: 5_000_000_000_000_000_000_000_000,
        })
    );
    assert!(ledger.fetch_all_presentations().is_empty());
    assert_eq!(
        ledger.fetch_presentation_by_id(1),
        Err(ContractError::NotFound(RecordKind::Presentation))
    );
}

#[test]
fn a_deposit_one_short_is_refused() {
    let mut ledger = stocked();
    let refused =
        ledger.do_agreement(&ctx("alice.near", NOW, 5 * ONE_NEAR - 1), 1, 1, 1, NOW, NOW + 1);
    assert_eq!(
        refused,
        Err(ContractError::InsufficientDeposit {
            attached: 5 * ONE_NEAR - 1,
            required: 5 * ONE_NEAR,
        })
    );
}

#[test]
fn a_stranger_cannot_book_with_the_creative() {
    let mut ledger = stocked();
    let refused =
        ledger.do_agreement(&ctx("bob.near", NOW, 5 * ONE_NEAR), 1, 1, 1, NOW + 10, NOW + 100);
    assert_eq!(refused, Err(ContractError::Unauthorized(Claim::CreativeOwner)));
    assert!(ledger.fetch_all_presentations().is_empty());
}

#[test]
fn the_fee_is_a_tenth_rounded_down() {
    let mut ledger = stocked();
    let deposit: u128 = 5 * ONE_NEAR + 19;
    let agreement =
        ledger.do_agreement(&ctx("alice.near", NOW, deposit), 1, 1, 1, NOW, NOW + 1).unwrap();
    assert_eq!(agreement.advertiser_cost, 5_000_000_000_000_000_000_000_019);
    assert_eq!(agreement.entertainment_fee, 500_000_000_000_000_000_000_001);
    let paid = ledger.transfer_funds(&ctx("platform.near", NOW + 1, 0), 1).unwrap().unwrap();
    assert_eq!(paid.amount, 4_500_000_000_000_000_000_000_018);
    assert_eq!(paid.amount + agreement.entertainment_fee, agreement.advertiser_cost);
}

#[test]
fn the_whole_of_a_balance_can_be_deposited() {
    let mut ledger = stocked();
    let agreement =
        ledger.do_agreement(&ctx("alice.near", NOW, u128::MAX), 1, 1, 1, NOW, NOW + 1).unwrap();
    assert_eq!(agreement.entertainment_fee, u128::MAX / 10);
    let paid = ledger.transfer_funds(&ctx("platform.near", NOW + 1, 0), 1).unwrap().unwrap();
    assert_eq!(paid.amount, u128::MAX - u128::MAX / 10);
}

#[test]
fn agreement_arguments_are_checked_in_order() {
    let mut ledger = MetaAdsContract::default();
    let c = ctx("alice.near", NOW, 0);
    assert_eq!(
        ledger.do_agreement(&c, 0, 0, 0, 0, 0),
        Err(ContractError::InvalidInput(InputFault::PlaybackId))
    );
    assert_eq!(
        ledger.do_agreement(&c, 1, 0, 0, 0, 0),
        Err(ContractError::InvalidInput(InputFault::AdSpotId))
    );
    assert_eq!(
        ledger.do_agreement(&c, 1, 1, 0, 0, 0),
        Err(ContractError::InvalidInput(InputFault::CreativeId))
    );
    assert_eq!(
        ledger.do_agreement(&c, 1, 1, 1, NOW - 1, 0),
        Err(ContractError::InvalidInput(InputFault::StartTime))
    );
    assert_eq!(
        ledger.do_agreement(&c, 1, 1, 1, NOW, NOW),
        Err(ContractError::InvalidInput(InputFault::EndTime))
    );
    assert_eq!(
        ledger.do_agreement(&c, 1, 1, 1, NOW + 5, NOW + 5),
        Err(ContractError::InvalidInput(InputFault::TimeRange))
    );
    assert_eq!(
        ledger.do_agreement(&c, 1, 1, 1, NOW + 5, NOW + 4),
        Err(ContractError::InvalidInput(InputFault::TimeRange))
    );
    assert_eq!(
        ledger.do_agreement(&c, 1, 1, 1, NOW, NOW + 1),
        Err(ContractError::NotFound(RecordKind::Creative))
    );
    ledger.make_creative(&c, "name".to_string(), "content".to_string(), 1, None).unwrap();
    assert_eq!(
        ledger.do_agreement(&c, 1, 1, 1, NOW, NOW + 1),
        Err(ContractError::NotFound(RecordKind::AdSpot))
    );
    assert!(ledger.fetch_all_presentations().is_empty());
}

#[test]
fn the_deposit_is_looked_at_before_the_caller() {
    let mut ledger = stocked();
    assert_eq!(
        ledger.do_agreement(&ctx("bob.near", NOW, 1), 1, 1, 1, NOW, NOW + 1),
        Err(ContractError::InsufficientDeposit { attached: 1, required: 5 * ONE_NEAR })
    );
}

#[test]
fn the_window_may_start_now() {
    let mut ledger = stocked();
    assert!(ledger.do_agreement(&ctx("alice.near", NOW, 5 * ONE_NEAR), 1, 1, 1, NOW, NOW + 1).is_ok());
}

#[test]
fn a_playback_id_is_used_once() {
    let mut ledger = signed();
    let first = ledger.fetch_presentation_by_id(1).unwrap();
    let again =
        ledger.do_agreement(&ctx("alice.near", NOW, 9 * ONE_NEAR), 1, 1, 1, NOW + 20, NOW + 30);
    assert_eq!(again, Err(ContractError::Conflict(RecordKind::Presentation)));
    assert_eq!(ledger.fetch_presentation_by_id(1), Ok(first));
    assert_eq!(ledger.fetch_all_presentations().len(), 1);
}

#[test]
fn a_refused_agreement_changes_nothing() {
    let mut ledger = signed();
    let creatives = ledger.fetch_all_creatives();
    let spots = ledger.fetch_all_adspots();
    let agreements = ledger.fetch_all_presentations();
    let attempts: Vec<(CallContext, u64, u64, u64, u64, u64)> = vec![
        (ctx("alice.near", NOW, 5 * ONE_NEAR), 2, 1, 1, NOW - 1, NOW + 100),
        (ctx("alice.near", NOW, 5 * ONE_NEAR), 2, 1, 1, NOW + 10, NOW + 10),
        (ctx("alice.near", NOW, 5 * ONE_NEAR), 2, 1, 9, NOW + 10, NOW + 100),
        (ctx("alice.near", NOW, 5 * ONE_NEAR), 2, 9, 1, NOW + 10, NOW + 100),
        (ctx("alice.near", NOW, 4 * ONE_NEAR), 2, 1, 1, NOW + 10, NOW + 100),
        (ctx("bob.near", NOW, 5 * ONE_NEAR), 2, 1, 1, NOW + 10, NOW + 100),
        (ctx("alice.near", NOW, 5 * ONE_NEAR), 1, 1, 1, NOW + 10, NOW + 100),
    ];
    for (c, playback_id, adspot_id, creative_id, start, end) in attempts {
        assert!(ledger.do_agreement(&c, playback_id, adspot_id, creative_id, start, end).is_err());
        assert_eq!(ledger.fetch_all_presentations().len(), 1);
        assert_eq!(ledger.fetch_all_presentations(), agreements);
        assert_eq!(ledger.fetch_all_creatives(), creatives);
        assert_eq!(ledger.fetch_all_adspots(), spots);
    }
    assert!(ledger.do_agreement(&ctx("alice.near", NOW, 5 * ONE_NEAR), 2, 1, 1, NOW + 10, NOW + 100).is_ok());
    assert_eq!(ledger.fetch_all_presentations().len(), 2);
}

#[test]
fn an_agreement_keeps_the_terms_of_its_signing() {
    let ledger = signed();
    let agreement = ledger.fetch_presentation_by_id(1).unwrap();
    let spot = ledger.fetch_adspot_by_id(1).unwrap();
    let creative = ledger.fetch_creative_by_id(1).unwrap();
    assert_eq!(agreement.ad_spot_name, spot.name);
    assert_eq!(agreement.publisher_earn, spot.publisher_earn);
    assert_eq!(agreement.show_kind, spot.show_kind);
    assert_eq!(agreement.publisher_account_id, spot.owner_account_id);
    assert_eq!(agreement.advertiser_account_id, creative.owner_account_id);
}

#[test]
fn no_settlement_before_the_end() {
    let mut ledger = signed();
    let before = ledger.fetch_presentation_by_id(1).unwrap();
    assert_eq!(
        ledger.transfer_funds(&ctx("platform.near", NOW + 99, 0), 1),
        Err(ContractError::WindowNotElapsed)
    );
    assert_eq!(ledger.fetch_presentation_by_id(1), Ok(before));
    let mut almost = ctx("platform.near", NOW + 99, 0);
    almost.block_timestamp += 999_999_999;
    assert_eq!(ledger.transfer_funds(&almost, 1), Err(ContractError::WindowNotElapsed));
    assert!(ledger.transfer_funds(&ctx("platform.near", NOW + 100, 0), 1).unwrap().is_some());
}

#[test]
fn an_agreement_is_settled_once() {
    let mut ledger = signed();
    let first = ledger.transfer_funds(&ctx("platform.near", NOW + 100, 0), 1);
    assert!(matches!(first, Ok(Some(_))));
    let after = ledger.fetch_presentation_by_id(1).unwrap();
    assert_eq!(
        ledger.transfer_funds(&ctx("platform.near", NOW + 101, 0), 1),
        Err(ContractError::AlreadySettled)
    );
    assert_eq!(
        ledger.transfer_funds(&ctx("platform.near", NOW, 0), 1),
        Err(ContractError::AlreadySettled)
    );
    assert_eq!(ledger.fetch_presentation_by_id(1), Ok(after));
}

#[test]
fn settling_what_is_not_there() {
    let mut ledger = signed();
    let before = ledger.fetch_all_presentations();
    assert_eq!(ledger.transfer_funds(&ctx("platform.near", NOW + 100, 0), 2), Ok(None));
    assert_eq!(ledger.fetch_all_presentations(), before);
    assert_eq!(
        ledger.transfer_funds(&ctx("platform.near", NOW + 100, 0), 0),
        Err(ContractError::InvalidInput(InputFault::PlaybackId))
    );
    assert_eq!(ledger.fetch_all_presentations(), before);
}

#[test]
fn what_is_not_stored_is_not_found() {
    let ledger = stocked();
    assert_eq!(ledger.fetch_creative_by_id(2), Err(ContractError::NotFound(RecordKind::Creative)));
    assert_eq!(ledger.fetch_adspot_by_id(2), Err(ContractError::NotFound(RecordKind::AdSpot)));
    assert_eq!(
        ledger.fetch_presentation_by_id(1),
        Err(ContractError::NotFound(RecordKind::Presentation))
    );
    assert_eq!(ledger.fetch_creative_by_id(0), Err(ContractError::NotFound(RecordKind::Creative)));
}

#[test]
fn all_transfers_for_one_agreement_make_one_payout() {
    let mut ledger = signed();
    ledger.do_agreement(&ctx("alice.near", NOW, 7 * ONE_NEAR), 2, 1, 1, NOW + 10, NOW + 50).unwrap();
    let mut released_first: u128 = 0;
    let mut released_second: u128 = 0;
    for seconds in [NOW, NOW + 49, NOW + 50, NOW + 99, NOW + 100, NOW + 101, NOW + 1000] {
        for _ in 0..2 {
            if let Ok(Some(transfer)) = ledger.transfer_funds(&ctx("platform.near", seconds, 0), 1) {
                released_first += transfer.amount;
            }
            if let Ok(Some(transfer)) = ledger.transfer_funds(&ctx("platform.near", seconds, 0), 2) {
                released_second += transfer.amount;
            }
        }
    }
    assert_eq!(released_first, 5 * ONE_NEAR - 5 * ONE_NEAR / 10);
    assert_eq!(released_second, 7 * ONE_NEAR - 7 * ONE_NEAR / 10);
}

#[test]
fn only_the_platform_settles() {
    let mut ledger = signed();
    let before = ledger.fetch_all_presentations();
    for caller in ["alice.near", "publisher.near", "bob.near", ""] {
        for playback_id in [0, 1, 2] {
            assert_eq!(
                ledger.transfer_funds(&ctx(caller, NOW + 100, 0), playback_id),
                Err(ContractError::Unauthorized(Claim::Platform))
            );
            assert_eq!(ledger.fetch_all_presentations(), before);
        }
    }
    assert!(ctx("platform.near", NOW, 0).by_platform());
    assert!(!ctx("alice.near", NOW, 0).by_platform());
    assert!(ledger.transfer_funds(&ctx("platform.near", NOW + 100, 0), 1).unwrap().is_some());
}
