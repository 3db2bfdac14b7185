use testdex::amount::Amount;
use testdex::testdex::{Asset, DexError, Status, TestDEX};

fn amt(n: u64) -> Amount {
    Amount::from_u64(n)
}

fn val(a: Amount) -> u64 {
    a.to_u64().unwrap()
}

fn funded(fee: u32, token: u64, egld: u64) -> TestDEX {
    let mut dex = TestDEX::init(fee);
    dex.add_liquidity_token(true, Asset::Token, &amt(token)).unwrap();
    dex.add_liquidity_egld(true, Asset::Egld, &amt(egld)).unwrap();
    dex
}

fn snapshot(dex: &TestDEX) -> [u64; 5] {
    [
        val(dex.liquidity_token()),
        val(dex.liquidity_egld()),
        val(dex.initial_k()),
        val(dex.earnings(Asset::Token)),
        val(dex.earnings(Asset::Egld)),
    ]
}

#[test]
fn new_pair_is_empty_and_funding() {
    let dex = TestDEX::init(5);
    assert_eq!(dex.fee(), 5);
    assert_eq!(dex.status(), Status::Funding);
    assert_eq!(snapshot(&dex), [0, 0, 0, 0, 0]);
}

#[test]
fn quote_of_a_hundred_with_half_percent_fee() {
    let dex = funded(5, 1_000_000, 10_000);
    assert_eq!(val(dex.price_egld_token(&amt(100))), 99_500_000_000 / 10_099_500);
    assert_eq!(val(dex.price_egld_token(&amt(100))), 9851);
    assert_eq!(val(dex.price_egld_token_no_fee(&amt(100))), 100_000_000_000 / 10_100_000);
    assert_eq!(val(dex.price_egld_token_no_fee(&amt(100))), 9900);
    assert_eq!(val(dex.fee_egld_token(&amt(100))), 49);
}

#[test]
fn quote_of_token_for_egld() {
    let dex = funded(5, 1_000_000, 10_000);
    assert_eq!(val(dex.price_token_egld_numerator(&amt(5000))), 49_750_000_000);
    assert_eq!(val(dex.price_token_egld_denominator(&amt(5000))), 1_004_975_000);
    assert_eq!(val(dex.price_token_egld(&amt(5000))), 49);
    assert_eq!(val(dex.price_token_egld_no_fee(&amt(5000))), 49);
    assert_eq!(val(dex.fee_token_egld(&amt(5000))), 0);
}

#[test]
fn deposit_of_nothing_changes_nothing() {
    let mut dex = TestDEX::init(5);
    assert_eq!(dex.add_liquidity_token(true, Asset::Token, &amt(0)), Ok(()));
    assert_eq!(dex.add_liquidity_egld(true, Asset::Egld, &amt(0)), Ok(()));
    assert_eq!(dex.status(), Status::Funding);
    assert_eq!(snapshot(&dex), [0, 0, 0, 0, 0]);

    dex.add_liquidity_token(true, Asset::Token, &amt(700)).unwrap();
    assert_eq!(dex.add_liquidity_egld(true, Asset::Egld, &amt(0)), Ok(()));
    assert_eq!(dex.add_liquidity_token(true, Asset::Token, &amt(0)), Ok(()));
    assert_eq!(dex.status(), Status::Funding);
    assert_eq!(snapshot(&dex), [700, 0, 0, 0, 0]);
}

#[test]
fn product_is_frozen_by_the_deposit_that_funds_the_pair() {
    let mut dex = TestDEX::init(5);
    dex.add_liquidity_token(true, Asset::Token, &amt(400_000)).unwrap();
    assert_eq!(val(dex.initial_k()), 0);
    dex.add_liquidity_token(true, Asset::Token, &amt(600_000)).unwrap();
    assert_eq!(dex.status(), Status::Funding);
    assert_eq!(val(dex.initial_k()), 0);
    dex.add_liquidity_egld(true, Asset::Egld, &amt(10_000)).unwrap();
    assert_eq!(dex.status(), Status::Successful);
    assert_eq!(val(dex.initial_k()), 10_000_000_000);
    assert_eq!(val(dex.calculate_k()), 10_000_000_000);

    assert_eq!(
        dex.add_liquidity_egld(true, Asset::Egld, &amt(1)),
        Err(DexError::PairAlreadyFunded)
    );
    assert_eq!(
        dex.add_liquidity_token(true, Asset::Token, &amt(1)),
        Err(DexError::PairAlreadyFunded)
    );
    assert_eq!(snapshot(&dex), [1_000_000, 10_000, 10_000_000_000, 0, 0]);
}

#[test]
fn egld_deposit_first_then_token_funds_the_pair() {
    let mut dex = TestDEX::init(0);
    dex.add_liquidity_egld(true, Asset::Egld, &amt(30)).unwrap();
    assert_eq!(dex.status(), Status::Funding);
    dex.add_liquidity_token(true, Asset::Token, &amt(40)).unwrap();
    assert_eq!(dex.status(), Status::Successful);
    assert_eq!(val(dex.initial_k()), 1200);
}

#[test]
fn swaps_leave_the_frozen_product_alone() {
    let mut dex = funded(5, 1_000_000, 10_000);

    assert_eq!(val(dex.egld_to_token(Asset::Egld, &amt(100)).unwrap()), 9851);
    assert_eq!(snapshot(&dex), [990_002, 10_100, 10_000_000_000, 147, 0]);
    assert_eq!(val(dex.calculate_k()), 9_999_020_200);

    assert_eq!(val(dex.egld_to_token(Asset::Egld, &amt(100)).unwrap()), 9657);
    assert_eq!(snapshot(&dex), [980_393, 10_200, 10_000_000_000, 99, 0]);
    assert_eq!(val(dex.calculate_k()), 10_000_008_600);

    assert_eq!(val(dex.token_to_egld(Asset::Token, &amt(5000)).unwrap()), 51);
    assert_eq!(snapshot(&dex), [985_393, 10_052, 10_000_000_000, 99, 97]);
}

#[test]
fn correction_takes_the_ratio_out_of_the_output_side() {
    let mut dex = funded(5, 1_000_000, 10_000);
    dex.egld_to_token(Asset::Egld, &amt(100)).unwrap();
    // Booked: token 1_000_000 - 9900, product 10_000_010_000, above the frozen one.
    // Ratio 990_100 / 10_100 = 98 goes from the token balance to the token earnings.
    assert_eq!(val(dex.liquidity_token()), 990_100 - 98);
    assert_eq!(val(dex.earnings(Asset::Token)), 49 + 98);
    assert_eq!(val(dex.liquidity_egld()), 10_100);
    assert_eq!(val(dex.earnings(Asset::Egld)), 0);
}

#[test]
fn correction_gives_the_ratio_back_when_the_product_is_low() {
    let mut dex = funded(5, 1_000_000, 10_000);
    dex.egld_to_token(Asset::Egld, &amt(100)).unwrap();
    dex.egld_to_token(Asset::Egld, &amt(100)).unwrap();
    // Booked: token 990_002 - 9705 = 980_297, product 9_999_029_400, below the
    // frozen one. Ratio 980_297 / 10_200 = 96 comes back out of the earnings.
    assert_eq!(val(dex.liquidity_token()), 980_297 + 96);
    assert_eq!(val(dex.earnings(Asset::Token)), 147 + 48 - 96);
}

#[test]
fn swap_fails_when_earnings_cannot_give_the_ratio() {
    let mut dex = funded(5, 1_000_000, 10_000);
    dex.egld_to_token(Asset::Egld, &amt(100)).unwrap();
    dex.egld_to_token(Asset::Egld, &amt(100)).unwrap();
    dex.token_to_egld(Asset::Token, &amt(5000)).unwrap();
    let before = snapshot(&dex);
    assert_eq!(
        dex.token_to_egld(Asset::Token, &amt(5000)),
        Err(DexError::InsufficientLiquidity)
    );
    assert_eq!(snapshot(&dex), before);
}

#[test]
fn swap_fails_when_the_balance_cannot_give_the_ratio() {
    let mut dex = funded(0, 10, 1000);
    assert_eq!(
        dex.egld_to_token(Asset::Egld, &amt(500)),
        Err(DexError::InsufficientLiquidity)
    );
    assert_eq!(snapshot(&dex), [10, 1000, 10_000, 0, 0]);
}

#[test]
fn swap_before_funding_is_rejected() {
    let mut dex = TestDEX::init(5);
    dex.add_liquidity_token(true, Asset::Token, &amt(1000)).unwrap();
    assert_eq!(
        dex.egld_to_token(Asset::Egld, &amt(10)),
        Err(DexError::PairStillFunding)
    );
    assert_eq!(
        dex.token_to_egld(Asset::Token, &amt(10)),
        Err(DexError::PairStillFunding)
    );
    assert_eq!(snapshot(&dex), [1000, 0, 0, 0, 0]);
}

#[test]
fn payment_in_the_wrong_asset_is_rejected() {
    let mut dex = TestDEX::init(5);
    assert_eq!(
        dex.add_liquidity_token(true, Asset::Egld, &amt(10)),
        Err(DexError::AssetMismatch)
    );
    assert_eq!(
        dex.add_liquidity_egld(true, Asset::Token, &amt(10)),
        Err(DexError::AssetMismatch)
    );
    assert_eq!(snapshot(&dex), [0, 0, 0, 0, 0]);
    let mut dex = funded(5, 1_000_000, 10_000);
    assert_eq!(
        dex.egld_to_token(Asset::Token, &amt(10)),
        Err(DexError::AssetMismatch)
    );
    assert_eq!(
        dex.token_to_egld(Asset::Egld, &amt(10)),
        Err(DexError::AssetMismatch)
    );
    assert_eq!(snapshot(&dex), [1_000_000, 10_000, 10_000_000_000, 0, 0]);
}

#[test]
fn only_the_owner_deposits_and_claims() {
    let mut dex = funded(5, 1_000_000, 10_000);
    dex.egld_to_token(Asset::Egld, &amt(100)).unwrap();
    let before = snapshot(&dex);
    assert_eq!(dex.claim_liquidity_token(false), Err(DexError::Unauthorized));
    assert_eq!(dex.claim_liquidity_egld(false), Err(DexError::Unauthorized));
    assert_eq!(dex.claim_earnings(false, Asset::Token), Err(DexError::Unauthorized));
    assert_eq!(dex.claim_earnings(false, Asset::Egld), Err(DexError::Unauthorized));
    assert_eq!(snapshot(&dex), before);

    let mut empty = TestDEX::init(5);
    assert_eq!(
        empty.add_liquidity_token(false, Asset::Token, &amt(10)),
        Err(DexError::Unauthorized)
    );
    assert_eq!(
        empty.add_liquidity_egld(false, Asset::Egld, &amt(10)),
        Err(DexError::Unauthorized)
    );
    assert_eq!(snapshot(&empty), [0, 0, 0, 0, 0]);
}

#[test]
fn claiming_earnings_twice_pays_once() {
    let mut dex = funded(5, 1_000_000, 10_000);
    dex.egld_to_token(Asset::Egld, &amt(100)).unwrap();
    assert_eq!(val(dex.claim_earnings(true, Asset::Token).unwrap()), 147);
    let after_first = snapshot(&dex);
    assert_eq!(after_first, [990_002, 10_100, 10_000_000_000, 0, 0]);
    assert_eq!(val(dex.claim_earnings(true, Asset::Token).unwrap()), 0);
    assert_eq!(snapshot(&dex), after_first);
    assert_eq!(val(dex.claim_earnings(true, Asset::Egld).unwrap()), 0);
    assert_eq!(snapshot(&dex), after_first);
}

#[test]
fn claiming_liquidity_twice_pays_once() {
    let mut dex = funded(5, 1_000_000, 10_000);
    assert_eq!(val(dex.claim_liquidity_token(true).unwrap()), 1_000_000);
    assert_eq!(dex.status(), Status::Funding);
    let after_first = snapshot(&dex);
    assert_eq!(after_first, [0, 10_000, 10_000_000_000, 0, 0]);
    assert_eq!(val(dex.claim_liquidity_token(true).unwrap()), 0);
    assert_eq!(snapshot(&dex), after_first);

    assert_eq!(val(dex.claim_liquidity_egld(true).unwrap()), 10_000);
    assert_eq!(val(dex.claim_liquidity_egld(true).unwrap()), 0);
    assert_eq!(snapshot(&dex), [0, 0, 10_000_000_000, 0, 0]);
}

#[test]
fn fee_never_raises_the_quote() {
    for fee in [0u32, 1, 5, 500, 999] {
        let dex = funded(fee, 1_000_000, 10_000);
        for qty in [1u64, 7, 100, 10_000, 123_456_789] {
            let with_fee = val(dex.price_egld_token(&amt(qty)));
            let no_fee = val(dex.price_egld_token_no_fee(&amt(qty)));
            assert!(with_fee <= no_fee);
            assert_eq!(val(dex.fee_egld_token(&amt(qty))), no_fee - with_fee);
            let with_fee = val(dex.price_token_egld(&amt(qty)));
            let no_fee = val(dex.price_token_egld_no_fee(&amt(qty)));
            assert!(with_fee <= no_fee);
            assert_eq!(val(dex.fee_token_egld(&amt(qty))), no_fee - with_fee);
            if fee == 0 {
                assert_eq!(with_fee, no_fee);
            }
        }
    }
}

#[test]
fn truncation_can_hide_a_positive_fee() {
    let dex = funded(5, 1, 1);
    assert_eq!(val(dex.price_egld_token(&amt(1))), 0);
    assert_eq!(val(dex.price_egld_token_no_fee(&amt(1))), 0);
}

#[test]
fn selling_back_returns_no_more_than_was_paid() {
    let mut dex = funded(5, 1_000_000, 10_000);
    dex.egld_to_token(Asset::Egld, &amt(100)).unwrap();
    // The product is now below the frozen one, so the next swap is corrected upwards.
    let token = val(dex.egld_to_token(Asset::Egld, &amt(100)).unwrap());
    assert_eq!(token, 9657);
    assert!(val(dex.liquidity_token()) >= 990_002 - 9705);
    assert_eq!(val(dex.price_token_egld(&amt(token))), 98);
    assert_eq!(val(dex.token_to_egld(Asset::Token, &amt(token)).unwrap()), 98);
}

#[test]
fn quote_after_a_downward_correction() {
    let mut dex = funded(0, 1000, 100_000);
    assert_eq!(val(dex.egld_to_token(Asset::Egld, &amt(100_001)).unwrap()), 500);
    assert_eq!(snapshot(&dex), [100, 200_001, 100_000_000, 400, 0]);
    assert_eq!(val(dex.price_token_egld(&amt(500))), 166_667);
}

#[test]
fn ratio_is_the_larger_balance_over_the_smaller() {
    assert_eq!(val(funded(5, 1_000_000, 10_000).ratio()), 100);
    assert_eq!(val(funded(5, 10_000, 1_000_000).ratio()), 100);
    assert_eq!(val(funded(5, 1000, 2999).ratio()), 2);
    assert_eq!(val(funded(5, 1000, 1000).ratio()), 1);
    assert_eq!(val(funded(5, 1000, 1999).ratio()), 1);
}

#[test]
fn status_follows_the_balances() {
    let mut dex = TestDEX::init(5);
    assert_eq!(dex.status(), Status::Funding);
    dex.add_liquidity_egld(true, Asset::Egld, &amt(1)).unwrap();
    assert_eq!(dex.status(), Status::Funding);
    dex.add_liquidity_token(true, Asset::Token, &amt(1)).unwrap();
    assert_eq!(dex.status(), Status::Successful);
    dex.claim_liquidity_egld(true).unwrap();
    assert_eq!(dex.status(), Status::Funding);
}

#[test]
fn balances_beyond_64_bits() {
    let ten_15 = amt(1_000_000_000_000_000);
    let token = ten_15.times(&ten_15);
    let egld = ten_15.times(&amt(1_000_000_000_000));
    let payment = ten_15.times(&amt(1_000_000_000));
    let mut dex = TestDEX::init(3);
    dex.add_liquidity_token(true, Asset::Token, &token).unwrap();
    dex.add_liquidity_egld(true, Asset::Egld, &egld).unwrap();
    // 10^57
    assert_eq!(
        dex.initial_k(),
        Amount::from_digits(vec![0, 1241513984, 2253052547, 3959278420, 3365545329, 684227765])
    );
    let paid = dex.egld_to_token(Asset::Egld, &payment).unwrap();
    // 996_006_981_039_903_216_493_156_323
    assert_eq!(paid, Amount::from_digits(vec![2725009379, 2717466973, 53993646]));
    // 999_000_999_000_999_000_999_000_998_003
    assert_eq!(
        dex.liquidity_token(),
        Amount::from_digits(vec![3054960755, 2592519922, 2616345119, 12])
    );
    // 1_001_000_000_000_000_000_000_000_000
    assert_eq!(
        dex.liquidity_egld(),
        Amount::from_digits(vec![2298478592, 3147779370, 54264318])
    );
    // 2_994_017_961_095_784_505_845_674
    assert_eq!(
        dex.earnings(Asset::Token),
        Amount::from_digits(vec![3883706282, 167048601, 162306])
    );
    assert_eq!(dex.initial_k(), token.times(&egld));
}

#[test]
fn ledger_is_rebuilt_from_its_parts() {
    let mut dex = funded(5, 1_000_000, 10_000);
    dex.egld_to_token(Asset::Egld, &amt(100)).unwrap();
    let copy = TestDEX::from_parts(
        dex.fee(),
        dex.liquidity_token(),
        dex.liquidity_egld(),
        dex.initial_k(),
        dex.earnings(Asset::Token),
        dex.earnings(Asset::Egld),
    );
    assert_eq!(copy.fee(), 5);
    assert_eq!(snapshot(&copy), snapshot(&dex));
    assert_eq!(copy.status(), Status::Successful);
}

#[test]
fn quote_falls_as_the_fee_rises() {
    let expected = [(0u32, 9900u64), (1, 9891), (5, 9851), (100, 8919), (500, 4975), (999, 9)];
    for (fee, quote) in expected {
        let dex = funded(fee, 1_000_000, 10_000);
        assert_eq!(val(dex.price_egld_token(&amt(100))), quote);
    }
}

#[test]
fn correction_can_overshoot_the_frozen_product() {
    let mut dex = funded(5, 1_000_000, 10_000);
    dex.egld_to_token(Asset::Egld, &amt(100)).unwrap();
    // Booked product 10_100 * 990_100, ten thousand above the frozen one; the
    // correction lowers it by the ratio times the EGLD balance.
    assert_eq!(10_100u64 * 990_100, 10_000_010_000);
    assert_eq!(val(dex.calculate_k()), 10_000_010_000 - 98 * 10_100);
    assert_eq!(val(dex.initial_k()), 10_000_000_000);
}

#[test]
fn correction_closes_in_when_the_product_is_far_off() {
    let mut dex = TestDEX::from_parts(5, amt(1000), amt(1000), amt(500_000), amt(0), amt(0));
    assert_eq!(val(dex.egld_to_token(Asset::Egld, &amt(10)).unwrap()), 9);
    // Booked product 1010 * 991 = 1_000_910; the ratio is 1.
    assert_eq!(snapshot(&dex), [990, 1010, 500_000, 1, 0]);
    assert_eq!(val(dex.calculate_k()), 1_000_910 - 1010);
}

#[test]
fn fee_stays_as_constructed() {
    let mut dex = funded(7, 1_000_000, 10_000);
    dex.egld_to_token(Asset::Egld, &amt(100)).unwrap();
    dex.claim_earnings(true, Asset::Token).unwrap();
    dex.claim_liquidity_egld(true).unwrap();
    assert_eq!(dex.fee(), 7);
}

#[test]
fn product_is_kept_when_a_drained_pair_is_funded_again() {
    let mut dex = funded(5, 1_000_000, 10_000);
    assert_eq!(val(dex.initial_k()), 10_000_000_000);
    assert_eq!(val(dex.claim_liquidity_token(true).unwrap()), 1_000_000);
    assert_eq!(dex.status(), Status::Funding);
    assert_eq!(dex.add_liquidity_token(true, Asset::Token, &amt(500)), Ok(()));
    assert_eq!(dex.status(), Status::Successful);
    assert_eq!(val(dex.calculate_k()), 5_000_000);
    assert_eq!(val(dex.initial_k()), 10_000_000_000);
    assert_eq!(snapshot(&dex), [500, 10_000, 10_000_000_000, 0, 0]);

    assert_eq!(val(dex.claim_liquidity_egld(true).unwrap()), 10_000);
    assert_eq!(dex.add_liquidity_egld(true, Asset::Egld, &amt(7)), Ok(()));
    assert_eq!(dex.status(), Status::Successful);
    assert_eq!(snapshot(&dex), [500, 7, 10_000_000_000, 0, 0]);
}

#[test]
fn product_is_frozen_once_from_restored_parts() {
    let mut dex = TestDEX::from_parts(5, amt(0), amt(30), amt(0), amt(0), amt(0));
    dex.add_liquidity_token(true, Asset::Token, &amt(40)).unwrap();
    assert_eq!(val(dex.initial_k()), 1200);
    let mut dex = TestDEX::from_parts(5, amt(0), amt(30), amt(77), amt(0), amt(0));
    dex.add_liquidity_token(true, Asset::Token, &amt(40)).unwrap();
    assert_eq!(dex.status(), Status::Successful);
    assert_eq!(val(dex.initial_k()), 77);
}

#[test]
fn round_trip_can_pay_more_after_a_downward_correction() {
    let mut dex = TestDEX::from_parts(0, amt(505), amt(2), amt(1010), amt(0), amt(1000));
    assert_eq!(val(dex.egld_to_token(Asset::Egld, &amt(98)).unwrap()), 494);
    // Booked: token 11, product 1100 above the frozen one; the ratio 9 leaves 2.
    assert_eq!(snapshot(&dex), [2, 100, 1010, 9, 1000]);
    // 2 * 494 * 1000 is not below 1000 * 99 * 2 + 494 * 1000.
    assert!(2u64 * 494 * 1000 >= 1000 * 99 * 2 + 494 * 1000);
    assert_eq!(val(dex.price_token_egld(&amt(494))), 99);
    assert_eq!(val(dex.token_to_egld(Asset::Token, &amt(494)).unwrap()), 99);
    assert_eq!(snapshot(&dex), [496, 497, 1010, 9, 504]);
}

#[test]
fn round_trip_can_stay_within_the_payment_after_a_downward_correction() {
    let mut dex = TestDEX::from_parts(0, amt(1150), amt(1), amt(1150), amt(0), amt(2000));
    assert_eq!(val(dex.egld_to_token(Asset::Egld, &amt(99)).unwrap()), 1138);
    // Booked: token 12, product 1200 above the frozen one; the ratio 8 leaves 4.
    assert_eq!(snapshot(&dex), [4, 100, 1150, 8, 2000]);
    // 1 * 1138 * 1000 is below 1000 * 100 * 4 + 1138 * 1000.
    assert!(1u64 * 1138 * 1000 < 1000 * 100 * 4 + 1138 * 1000);
    assert_eq!(val(dex.price_token_egld(&amt(1138))), 99);
    assert_eq!(val(dex.token_to_egld(Asset::Token, &amt(1138)).unwrap()), 99);
    assert_eq!(snapshot(&dex), [1142, 1143, 1150, 8, 858]);
}
