use cosmwasm_std::testing::MockStorage;
use cosmwasm_std::{Order, StdError, StdResult};
use cw_storage_plus::Bound;
use cw_asset::{Addr, AssetInfo};
use cw_storage_plus::{Key, KeyDeserialize, Prefixer, PrimaryKey};

/// A map key made of an asset info, laid out by the library's key segments and
/// read back by the library's `from_key`.
#[derive(Clone, Debug, PartialEq)]
struct StoredAsset(AssetInfo);

impl<'a> PrimaryKey<'a> for StoredAsset {
    type Prefix = String;
    type SubPrefix = ();
    type Suffix = String;
    type SuperSuffix = Self;

    fn key(&self) -> Vec<Key<'_>> {
        let (prefix, inner) = self.0.key_segments();
        vec![Key::Ref(prefix.as_bytes()), Key::Ref(inner.as_bytes())]
    }
}

impl KeyDeserialize for StoredAsset {
    const KEY_ELEMS: u16 = 1;

    type Output = StoredAsset;

    fn from_vec(value: Vec<u8>) -> StdResult<Self::Output> {
        AssetInfo::from_key(value).map(StoredAsset).map_err(|e| StdError::msg(format!("{e:?}")))
    }
}

impl<'a> Prefixer<'a> for StoredAsset {
    fn prefix(&self) -> Vec<Key<'_>> {
        self.key()
    }
}

#[test]
fn storage_keys_read_back_through_a_map() {
    let mut storage = MockStorage::new();
    let map: cw_storage_plus::Map<StoredAsset, u64> = cw_storage_plus::Map::new("map");

    let uusd = StoredAsset(AssetInfo::native("uusd"));
    let token = StoredAsset(AssetInfo::cw20(Addr::unchecked("mock_token")));
    map.save(&mut storage, uusd.clone(), &42069).unwrap();
    map.save(&mut storage, token.clone(), &7).unwrap();

    assert_eq!(map.load(&storage, uusd.clone()).unwrap(), 42069);
    assert_eq!(map.load(&storage, token.clone()).unwrap(), 7);

    let items = map
        .range(&storage, None, None, Order::Ascending)
        .collect::<StdResult<Vec<_>>>()
        .unwrap();
    assert_eq!(items, vec![(token, 7), (uusd, 42069)]);
}

#[test]
fn storage_prefixes_group_by_kind() {
    let mut storage = MockStorage::new();
    let map: cw_storage_plus::Map<StoredAsset, u64> = cw_storage_plus::Map::new("map");
    for (i, name) in ["cosmwasm1", "cosmwasm3", "cosmwasm2"].iter().enumerate() {
        map.save(&mut storage, StoredAsset(AssetInfo::cw20(Addr::unchecked(name))), &(i as u64))
            .unwrap();
    }
    map.save(&mut storage, StoredAsset(AssetInfo::native("native1")), &10).unwrap();

    let cw20 = map
        .prefix("cw20:".to_string())
        .range(&storage, None, None, Order::Ascending)
        .collect::<StdResult<Vec<(String, u64)>>>()
        .unwrap();
    assert_eq!(
        cw20,
        vec![
            ("cosmwasm1".to_string(), 0),
            ("cosmwasm2".to_string(), 2),
            ("cosmwasm3".to_string(), 1)
        ]
    );
}

fn mock_key() -> StoredAsset {
    StoredAsset(AssetInfo::native("uusd"))
}

fn mock_keys() -> (StoredAsset, StoredAsset, StoredAsset) {
    (
        StoredAsset(AssetInfo::native("uusd")),
        StoredAsset(AssetInfo::cw20(Addr::unchecked("mock_token"))),
        StoredAsset(AssetInfo::cw20(Addr::unchecked("mock_token2"))),
    )
}

#[test]
fn storage_key_works() {
    let mut storage = MockStorage::new();
    let key = mock_key();
    let map: cw_storage_plus::Map<StoredAsset, u64> = cw_storage_plus::Map::new("map");

    map.save(&mut storage, key.clone(), &42069).unwrap();

    assert_eq!(map.load(&storage, key.clone()).unwrap(), 42069);

    let items = map
        .range(&storage, None, None, Order::Ascending)
        .map(|item| item.unwrap())
        .collect::<Vec<_>>();

    assert_eq!(items.len(), 1);
    assert_eq!(items[0], (key, 42069));
}

#[test]
fn composite_key_works() {
    let mut storage = MockStorage::new();
    let key = mock_key();
    let map: cw_storage_plus::Map<(StoredAsset, cosmwasm_std::Addr), u64> =
        cw_storage_plus::Map::new("map");

    map.save(&mut storage, (key.clone(), cosmwasm_std::Addr::unchecked("larry")), &42069)
        .unwrap();

    map.save(&mut storage, (key.clone(), cosmwasm_std::Addr::unchecked("jake")), &69420).unwrap();

    let items = map
        .prefix(key)
        .range(&storage, None, None, Order::Ascending)
        .map(|item| item.unwrap())
        .collect::<Vec<_>>();

    assert_eq!(items.len(), 2);
    assert_eq!(items[0], (cosmwasm_std::Addr::unchecked("jake"), 69420));
    assert_eq!(items[1], (cosmwasm_std::Addr::unchecked("larry"), 42069));
}

#[test]
fn triple_asset_key_works() {
    let mut storage = MockStorage::new();
    let map: cw_storage_plus::Map<(StoredAsset, StoredAsset, StoredAsset), u64> =
        cw_storage_plus::Map::new("map");

    let (key1, key2, key3) = mock_keys();
    map.save(&mut storage, (key1.clone(), key2.clone(), key3.clone()), &42069).unwrap();
    map.save(&mut storage, (key1.clone(), key1.clone(), key2.clone()), &11).unwrap();
    map.save(&mut storage, (key1.clone(), key1.clone(), key3.clone()), &69420).unwrap();

    let items = map
        .prefix((key1.clone(), key1.clone()))
        .range(&storage, None, None, Order::Ascending)
        .map(|item| item.unwrap())
        .collect::<Vec<_>>();
    assert_eq!(items.len(), 2);
    assert_eq!(items[1], (key3.clone(), 69420));
    assert_eq!(items[0], (key2.clone(), 11));

    let val1 = map.load(&storage, (key1, key2, key3)).unwrap();
    assert_eq!(val1, 42069);
}

#[test]
fn prefix() {
    let mut storage = MockStorage::new();
    let map: cw_storage_plus::Map<StoredAsset, u64> = cw_storage_plus::Map::new("map");

    let asset_cw20_1 = StoredAsset(AssetInfo::cw20(Addr::unchecked("cosmwasm1")));
    let asset_cw20_2 = StoredAsset(AssetInfo::cw20(Addr::unchecked("cosmwasm2")));
    let asset_cw20_3 = StoredAsset(AssetInfo::cw20(Addr::unchecked("cosmwasm3")));

    let asset_native_1 = StoredAsset(AssetInfo::native(Addr::unchecked("native1").as_str()));
    let asset_native_2 = StoredAsset(AssetInfo::native(Addr::unchecked("native2").as_str()));
    let asset_native_3 = StoredAsset(AssetInfo::native(Addr::unchecked("native3").as_str()));

    map.save(&mut storage, asset_cw20_1.clone(), &1).unwrap();
    map.save(&mut storage, asset_cw20_3.clone(), &3).unwrap();
    map.save(&mut storage, asset_cw20_2.clone(), &2).unwrap();

    map.save(&mut storage, asset_native_2.clone(), &20).unwrap();
    map.save(&mut storage, asset_native_3.clone(), &30).unwrap();
    map.save(&mut storage, asset_native_1.clone(), &10).unwrap();

    // --- Ascending ---

    // no bound
    let cw20_ascending = map
        .prefix("cw20:".to_string())
        .range(&storage, None, None, Order::Ascending)
        .collect::<StdResult<Vec<(String, u64)>>>()
        .unwrap();

    assert_eq!(
        vec![
            ("cosmwasm1".to_string(), 1),
            ("cosmwasm2".to_string(), 2),
            ("cosmwasm3".to_string(), 3)
        ],
        cw20_ascending
    );

    // bound on min
    let native_ascending = map
        .prefix("native:".to_string())
        .range(
            &storage,
            Some(Bound::exclusive(asset_native_1.0.inner())),
            None,
            Order::Ascending,
        )
        .collect::<StdResult<Vec<(String, u64)>>>()
        .unwrap();

    assert_eq!(
        vec![
            // ("native1".to_string(), 10), - out of bound
            ("native2".to_string(), 20),
            ("native3".to_string(), 30)
        ],
        native_ascending
    );

    // --- Descending ---

    // no bound
    let cw20_descending = map
        .prefix("cw20:".to_string())
        .range(&storage, None, None, Order::Descending)
        .collect::<StdResult<Vec<(String, u64)>>>()
        .unwrap();

    assert_eq!(
        vec![
            ("cosmwasm3".to_string(), 3),
            ("cosmwasm2".to_string(), 2),
            ("cosmwasm1".to_string(), 1)
        ],
        cw20_descending
    );

    // bound on max
    let native_descending = map
        .prefix("native:".to_string())
        .range(
            &storage,
            None,
            Some(Bound::exclusive(asset_native_3.0.inner())),
            Order::Descending,
        )
        .collect::<StdResult<Vec<(String, u64)>>>()
        .unwrap();

    assert_eq!(
        vec![
            // ("native3".to_string(), 30), - out of bound
            ("native2".to_string(), 20),
            ("native1".to_string(), 10)
        ],
        native_descending
    );
}
