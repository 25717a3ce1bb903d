//! The configuration each provisioned device is given, as an INI document.

use vstd::prelude::*;
use ini::Ini;

verus! {

#[verifier::external_type_specification]
#[verifier::external_body]
pub struct ExIni(Ini);

/// What an INI document holds: for each named section and key, the value that
/// `Ini::get_from(Some(section), key)` returns, where it returns one.
pub uninterp spec fn ini_entries(c: Ini) -> Map<(Seq<char>, Seq<char>), Seq<char>>;

/// Relies on `Ini::new`: a new document holds no named section, only an empty general one.
pub assume_specification[ Ini::new ]() -> (r: Ini)
    ensures
        ini_entries(r).dom() == Set::<(Seq<char>, Seq<char>)>::empty(),
;

/// Relies on `Ini::with_section(..).set(..)`: the value replaces whatever the first section
/// of that name held under that key (the section is created when missing); nothing else
/// changes.
#[verifier::external_body]
fn ini_set(c: &mut Ini, section: &str, key: &str, value: &str)
    ensures
        ini_entries(*final(c)) == ini_entries(*old(c)).insert((section@, key@), value@),
{
    c.with_section(Some(section)).set(key, value);
}

/// The entries of a device's configuration: the gateway reached over https for TLS and
/// provisioning, the credentials archive, the device's serial, no package manager, and
/// sqlite storage in `storage`.
pub open spec fn device_config_entries(
    unique_id: Seq<char>,
    creds_path: Seq<char>,
    gateway: Seq<char>,
    storage: Seq<char>,
) -> Map<(Seq<char>, Seq<char>), Seq<char>> {
    let server = "https://"@ + gateway;
    Map::empty().insert(("tls"@, "server"@), server).insert(
        ("provision"@, "server"@),
        server,
    ).insert(("provision"@, "provision_path"@), creds_path).insert(
        ("provision"@, "primary_ecu_serial"@),
        unique_id,
    ).insert(("pacman"@, "type"@), "none"@).insert(("storage"@, "path"@), storage).insert(
        ("storage"@, "type"@),
        "sqlite"@,
    )
}

/// The configuration of the device `unique_id`, provisioned with the credentials at
/// `creds_path` against `gateway`, keeping its state in `storage_path`.
pub fn device_config(unique_id: &str, creds_path: &str, gateway: &str, storage_path: &str) -> (r:
    Ini)
    ensures
        ini_entries(r) == device_config_entries(unique_id@, creds_path@, gateway@, storage_path@),
{
    let mut server = "https://".to_owned();
    server.append(gateway);
    let mut config = Ini::new();
    ini_set(&mut config, "tls", "server", server.as_str());
    ini_set(&mut config, "provision", "server", server.as_str());
    ini_set(&mut config, "provision", "provision_path", creds_path);
    ini_set(&mut config, "provision", "primary_ecu_serial", unique_id);
    ini_set(&mut config, "pacman", "type", "none");
    ini_set(&mut config, "storage", "path", storage_path);
    ini_set(&mut config, "storage", "type", "sqlite");
    config
}

} // verus!
