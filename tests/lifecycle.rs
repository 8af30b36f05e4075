use anchor_lang::AnchorSerialize;
use clickcrate::ExternalValidationResult::{Approved, Pass, Rejected};
use clickcrate::{
    activate_clickcrate, activate_product_listing, complete_order, encode_order_oracle,
    make_purchase, oracle_address, place_products, register_clickcrate, register_product_listing,
    remove_products, update_order_status, AccountData, Address, AssetCommand, ClickCrateError,
    ClickCrateState, ErrorKind, ExternalValidationResult, OracleValidation, OrderOracle,
    OrderStatus, Origin, PlacementType, ProductCategory, ProductListingState,
};
use mpl_core::accounts::{BaseAssetV1, BaseCollectionV1};
use mpl_core::types::{Key, UpdateAuthority};

fn addr(b: u8) -> Address {
    Address::new([b; 32])
}

fn program() -> Address {
    addr(200)
}

fn owner() -> Address {
    addr(1)
}

fn collection_bytes(minted: u32) -> Vec<u8> {
    BaseCollectionV1 {
        key: Key::CollectionV1,
        update_authority: [9u8; 32].into(),
        name: "Crate collection".to_string(),
        uri: "https://example.com/c.json".to_string(),
        num_minted: minted,
        current_size: minted,
    }
    .try_to_vec()
    .unwrap()
}

fn asset_bytes(asset_owner: Address) -> Vec<u8> {
    BaseAssetV1 {
        key: Key::AssetV1,
        owner: asset_owner.bytes.into(),
        update_authority: UpdateAuthority::None,
        name: "Unit".to_string(),
        uri: "https://example.com/a.json".to_string(),
        seq: None,
    }
    .try_to_vec()
    .unwrap()
}

fn oracle_account(asset: &Address, oracle: &OrderOracle) -> AccountData {
    let mut data = encode_order_oracle(oracle);
    data.extend_from_slice(&[0u8; 8]);
    AccountData { key: oracle_address(asset, &program()).unwrap(), data }
}

fn registered() -> (ClickCrateState, ProductListingState) {
    let slot = register_clickcrate(
        addr(10),
        owner(),
        PlacementType::Digitalreplica,
        ProductCategory::Books,
        addr(2),
    );
    let listing = register_product_listing(
        addr(20),
        owner(),
        Origin::Clickcrate,
        PlacementType::Digitalreplica,
        ProductCategory::Books,
        addr(3),
        Origin::Clickcrate,
    );
    (slot, listing)
}

fn vector(
    create: ExternalValidationResult,
    transfer: ExternalValidationResult,
    burn: ExternalValidationResult,
    update: ExternalValidationResult,
) -> OracleValidation {
    OracleValidation::V1 { create, transfer, burn, update }
}

#[test]
fn full_lifecycle_scenario() {
    let (mut slot, mut listing) = registered();
    assert!(!slot.is_active);
    assert!(!listing.is_active);
    activate_clickcrate(&mut slot, &owner()).unwrap();
    activate_product_listing(&mut listing, &owner()).unwrap();

    let assets = vec![addr(31), addr(32), addr(33)];
    let vault = addr(40);
    let cmds = place_products(
        &mut slot, &mut listing, &owner(), &addr(20), &addr(10), &addr(21), &vault, &program(),
        &collection_bytes(3), &assets, 500,
    )
    .unwrap();
    assert_eq!(listing.in_stock, 3);
    assert_eq!(listing.sold, 0);
    assert_eq!(cmds.len(), 9);

    let mut oracles: Vec<OrderOracle> = assets
        .iter()
        .map(|_| OrderOracle {
            order_status: OrderStatus::Placed,
            order_manager: Origin::Clickcrate,
            validation: vector(Pass, Rejected, Pass, Pass),
            bump: 254,
        })
        .collect();

    let receipt = make_purchase(
        &slot, &mut listing, &mut oracles[0], &owner(), &assets[0], &assets[0], 1, 10_000,
    )
    .unwrap();
    assert_eq!(receipt.payment, 500);
    assert_eq!(listing.in_stock, 2);
    assert_eq!(listing.sold, 1);
    assert_eq!(oracles[0].order_status, OrderStatus::Pending);

    update_order_status(&listing, &mut oracles[0], &owner(), &addr(20), OrderStatus::Completed)
        .unwrap();
    assert_eq!(oracles[0].validation, vector(Approved, Approved, Rejected, Pass));

    let escrow: u64 = 1_000;
    let seller_asset = asset_bytes(owner());
    let paid = complete_order(&listing, &oracles[0], &addr(20), &owner(), &owner(), &seller_asset, escrow)
        .unwrap();
    assert_eq!(paid, 500);
    let left = escrow - paid;
    let again = complete_order(&listing, &oracles[0], &addr(20), &owner(), &owner(), &seller_asset, left);
    assert_eq!(again, Ok(500));
    let drained = left - 500;
    let refused = complete_order(&listing, &oracles[0], &addr(20), &owner(), &owner(), &seller_asset, drained);
    assert_eq!(refused, Err(ClickCrateError::InsufficientBalance));
    assert_eq!(refused.unwrap_err().kind(), ErrorKind::InsufficientBalance);

    // The two other units go back to pending so the batch can be unbound.
    for o in oracles.iter_mut().skip(1) {
        update_order_status(&listing, o, &addr(3), &addr(20), OrderStatus::Cancelled).unwrap();
    }
    let accounts: Vec<AccountData> = assets
        .iter()
        .zip(oracles.iter())
        .map(|(a, o)| oracle_account(a, o))
        .collect();
    let removal = remove_products(
        &mut slot, &mut listing, &owner(), &addr(20), &addr(10), &vault, &program(),
        &collection_bytes(3), &assets, &accounts, 900_000, 890_880,
    )
    .unwrap();
    assert_eq!(removal.swept, 9_120);
    assert_eq!(removal.commands.len(), 12);
    assert_eq!(listing.in_stock, 0);
    assert_eq!(listing.sold, 1);
    assert_eq!(listing.vault, None);
    assert_eq!(listing.clickcrate_pos, None);
    assert_eq!(slot.product, None);
    assert_eq!(
        removal.commands[3],
        AssetCommand::RemoveOracleHook {
            asset: assets[0],
            oracle: oracle_address(&assets[0], &program()).unwrap()
        }
    );
}
