use csgo_matchbot::steam::{
    parse_steam2id, steam2id_string, steam_conn_string, steam_profile_url, STEAM64_BASE,
};

#[test]
fn steam2id_renders_parity_and_half() {
    // Account number 24691357 = 12345678 * 2 + 1.
    assert_eq!(steam2id_string(STEAM64_BASE + 24691357), "STEAM_0:1:12345678");
    assert_eq!(steam2id_string(STEAM64_BASE + 2), "STEAM_0:0:1");
    assert_eq!(steam2id_string(STEAM64_BASE), "STEAM_0:0:0");
}

#[test]
fn parse_round_trips_rendered_ids() {
    for account in [0u64, 1, 2, 24691357, 0xFFFFFFFF] {
        let id = STEAM64_BASE + account;
        assert_eq!(parse_steam2id(&steam2id_string(id)), Some(id));
    }
    assert_eq!(
        parse_steam2id("STEAM_0:1:12345678"),
        Some(STEAM64_BASE + 24691357)
    );
}

#[test]
fn parse_rejects_malformed_ids() {
    assert_eq!(parse_steam2id(""), None);
    assert_eq!(parse_steam2id("STEAM_0:1:"), None);
    assert_eq!(parse_steam2id("steam_0:1:1"), None);
    assert_eq!(parse_steam2id("STEAM_1:1:1"), None);
    assert_eq!(parse_steam2id("STEAM_0:2:1"), None);
    assert_eq!(parse_steam2id("STEAM_0:1:x1"), None);
    // Leading zeros are not the canonical rendering.
    assert_eq!(parse_steam2id("STEAM_0:1:007"), None);
    // The account half must fit in 31 bits.
    assert_eq!(parse_steam2id("STEAM_0:1:2147483648"), None);
    assert_eq!(parse_steam2id("STEAM_0:1:99999999999999999999"), None);
    // The largest valid half parses.
    assert_eq!(
        parse_steam2id("STEAM_0:1:2147483647"),
        Some(STEAM64_BASE + 0xFFFFFFFF)
    );
}

#[test]
fn conn_string_joins_ids_with_commas() {
    assert_eq!(steam_conn_string(&Vec::new()), "");
    assert_eq!(
        steam_conn_string(&vec![STEAM64_BASE + 24691357]),
        "STEAM_0:1:12345678"
    );
    assert_eq!(
        steam_conn_string(&vec![STEAM64_BASE + 24691357, STEAM64_BASE + 2]),
        "STEAM_0:1:12345678,STEAM_0:0:1"
    );
}

#[test]
fn profile_url_uses_the_full_id() {
    assert_eq!(
        steam_profile_url(76561197984957085),
        "https://steamcommunity.com/profiles/76561197984957085"
    );
}
