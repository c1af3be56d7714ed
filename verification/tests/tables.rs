use soroban_sdk::{Address, Env};
use stellar_link::text::{fits, same_text};
use stellar_link::tables::{LinkTable, OwnerTable};
use stellar_link::{LinkError, LinkRecord, StellarLinkContract};

const ALICE: &str = "GA7QYNF7SOWQ3GLR2BGMZEHXAVIRZA4KVWLTJJFC7MGXUA74P7UJVSGZ";
const BOB: &str = "GBRPYHIL2CI3FNQ4BXLFMNDLFJUNPU2HY3ZMFSHONUCEOASW7QC7OX2H";

fn host_text(env: &Env, text: &str) -> soroban_sdk::String {
    soroban_sdk::String::from_str(env, text)
}

#[test]
fn registry_writes_host_strings_into_its_tables() {
    let env = Env::default();
    let mut registry = StellarLinkContract::new(&env);
    registry
        .create_link(true, ALICE.as_bytes(), b"https://example.com/a", Some(b"abc"), 17, 3)
        .unwrap();

    let links: &LinkTable = registry.links();
    let owners: &OwnerTable = registry.owners();
    assert_eq!(links.len(), 1);
    assert_eq!(owners.len(), 1);
    assert_eq!(
        links.get(host_text(&env, "abc")),
        Some((host_text(&env, "https://example.com/a"), 17u32, host_text(&env, ALICE)))
    );
    assert_eq!(owners.get(host_text(&env, "abc")), Some(host_text(&env, ALICE)));
    assert_eq!(links.get(host_text(&env, "abd")), None);
}

#[test]
fn registry_reads_tables_filled_by_the_host() {
    let env = Env::default();
    let mut links: LinkTable = soroban_sdk::Map::new(&env);
    let mut owners: OwnerTable = soroban_sdk::Map::new(&env);
    links.set(
        host_text(&env, "docs"),
        (host_text(&env, "https://example.com/docs"), 77u32, host_text(&env, BOB)),
    );
    owners.set(host_text(&env, "docs"), host_text(&env, BOB));

    let mut registry = StellarLinkContract::from_tables(links, owners);
    assert_eq!(registry.get_url(b"docs"), Ok(b"https://example.com/docs".to_vec()));
    assert_eq!(registry.get_owner(b"docs"), Ok(BOB.as_bytes().to_vec()));
    assert_eq!(
        registry.get_link(b"docs"),
        Ok(LinkRecord {
            destination_url: b"https://example.com/docs".to_vec(),
            created_ledger: 77,
            owner: BOB.as_bytes().to_vec(),
        })
    );
    assert_eq!(
        registry.create_link(true, ALICE.as_bytes(), b"https://example.com/x", Some(b"docs"), 1, 1),
        Err(LinkError::KeyConflict)
    );
    assert_eq!(
        registry.update_link(true, ALICE.as_bytes(), b"docs", b"https://example.com/x"),
        Err(LinkError::Unauthorized)
    );
    assert_eq!(registry.delete_link(true, BOB.as_bytes(), b"docs"), Ok(()));
    assert_eq!(registry.links().len(), 0);
    assert_eq!(registry.owners().len(), 0);
}

#[test]
fn tables_carry_a_registry_over() {
    let env = Env::default();
    let mut first = StellarLinkContract::new(&env);
    first.create_link(true, ALICE.as_bytes(), b"https://example.com/a", Some(b"a"), 5, 50).unwrap();
    first.create_link(true, BOB.as_bytes(), b"https://example.com/b", Some(b"b"), 6, 60).unwrap();

    let mut second = StellarLinkContract::from_tables(first.links().clone(), first.owners().clone());
    assert_eq!(second.get_url(b"a"), Ok(b"https://example.com/a".to_vec()));
    assert_eq!(second.get_owner(b"b"), Ok(BOB.as_bytes().to_vec()));

    second.delete_link(true, ALICE.as_bytes(), b"a").unwrap();
    assert_eq!(second.get_url(b"a"), Err(LinkError::NotFound));
    assert_eq!(first.get_url(b"a"), Ok(b"https://example.com/a".to_vec()));
}

#[test]
fn registry_gives_its_tables_away() {
    let env = Env::default();
    let mut registry = StellarLinkContract::new(&env);
    registry.create_link(true, ALICE.as_bytes(), b"https://example.com/a", Some(b"a"), 5, 50).unwrap();

    let (links, owners) = registry.into_tables();
    assert_eq!(
        links.get(host_text(&env, "a")),
        Some((host_text(&env, "https://example.com/a"), 5u32, host_text(&env, ALICE)))
    );
    assert_eq!(owners.get(host_text(&env, "a")), Some(host_text(&env, ALICE)));

    let registry = StellarLinkContract::from_tables(links, owners);
    assert_eq!(registry.get_url(b"a"), Ok(b"https://example.com/a".to_vec()));
}

#[test]
fn update_on_tables_that_disagree_finds_no_link() {
    let env = Env::default();
    let links: LinkTable = soroban_sdk::Map::new(&env);
    let mut owners: OwnerTable = soroban_sdk::Map::new(&env);
    owners.set(host_text(&env, "ghost"), host_text(&env, ALICE));

    let mut registry = StellarLinkContract::from_tables(links, owners);
    assert_eq!(registry.get_owner(b"ghost"), Ok(ALICE.as_bytes().to_vec()));
    assert_eq!(registry.get_url(b"ghost"), Err(LinkError::NotFound));
    assert_eq!(
        registry.update_link(true, ALICE.as_bytes(), b"ghost", b"https://example.com/a"),
        Err(LinkError::NotFound)
    );
    assert_eq!(registry.links().len(), 0);
    assert_eq!(registry.delete_link(true, ALICE.as_bytes(), b"ghost"), Ok(()));
    assert_eq!(registry.get_owner(b"ghost"), Err(LinkError::NotFound));
}

#[test]
fn identity_is_the_text_of_an_address() {
    let env = Env::default();
    let alice = Address::from_string(&host_text(&env, ALICE));
    let bob = Address::from_string(&host_text(&env, BOB));
    assert_eq!(alice.to_string(), host_text(&env, ALICE));
    assert_ne!(alice, bob);

    let text = alice.to_string();
    let mut identity = vec![0u8; text.len() as usize];
    text.copy_into_slice(&mut identity);
    assert_eq!(identity, ALICE.as_bytes().to_vec());

    let mut registry = StellarLinkContract::new(&env);
    registry.create_link(true, &identity, b"https://example.com/a", Some(b"a"), 1, 1).unwrap();
    let owner = registry.get_owner(b"a").unwrap();
    assert_eq!(Address::from_string(&soroban_sdk::String::from_bytes(&env, &owner)), alice);
}

#[test]
fn ordinary_texts_fit_the_host() {
    assert!(fits(b""));
    assert!(fits(b"https://example.com/a"));
    assert!(fits(&[0u8; 4096]));
}

#[test]
fn same_text_compares_bytes() {
    assert!(same_text(b"", b""));
    assert!(same_text(b"abc", b"abc"));
    assert!(!same_text(b"abc", b"abd"));
    assert!(!same_text(b"abc", b"ab"));
    assert!(!same_text(b"", b"a"));
    assert!(!same_text(ALICE.as_bytes(), BOB.as_bytes()));
}
