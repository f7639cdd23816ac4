//! The access point settings of the program.
use vstd::prelude::*;

verus! {

/// The name and password of the Wi-Fi access point the board opens.
pub struct Config {
    pub access_point_ssid: &'static str,
    pub access_point_password: &'static str,
}

impl Default for Config {
    /// The access point "esp", with no password.
    fn default() -> (c: Self)
        ensures
            c.access_point_ssid@ == "esp"@,
            c.access_point_password@ == ""@,
    {
        Config { access_point_ssid: "esp", access_point_password: "" }
    }
}

} // verus!
