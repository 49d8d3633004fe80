//! The settings that the console keeps between runs.

use vstd::prelude::*;
use vstd::string::StringExecFns;

verus! {

/// The console's settings.
#[derive(Debug)]
pub struct AppConfig {
    pub speech_name: String,
    pub wifi_ssid: String,
    pub wifi_password: String,
}

impl Clone for AppConfig {
    fn clone(&self) -> (copy: Self)
        ensures
            copy == *self,
    {
        AppConfig {
            speech_name: self.speech_name.clone(),
            wifi_ssid: self.wifi_ssid.clone(),
            wifi_password: self.wifi_password.clone(),
        }
    }
}

impl Default for AppConfig {
    /// The settings of a first run: the microphone array, no network.
    fn default() -> (config: Self)
        ensures
            config.speech_name@ == "麦克风阵列"@,
            config.wifi_ssid@ == Seq::<char>::empty(),
            config.wifi_password@ == Seq::<char>::empty(),
    {
        AppConfig {
            speech_name: String::from_str("麦克风阵列"),
            wifi_ssid: String::new(),
            wifi_password: String::new(),
        }
    }
}

impl AppConfig {
    /// Name of the file that holds the settings.
    pub const CONFIG_PATH: &'static str = "config.toml";

    /// Sets the name of the microphone. The caller then saves the settings.
    pub fn set_speech_name(&mut self, name: String)
        ensures
            final(self).speech_name == name,
            final(self).wifi_ssid == old(self).wifi_ssid,
            final(self).wifi_password == old(self).wifi_password,
    {
        self.speech_name = name;
    }

    /// Sets the network's name and password. The caller then saves the
    /// settings.
    pub fn set_wifi(&mut self, ssid: String, password: String)
        ensures
            final(self).wifi_ssid == ssid,
            final(self).wifi_password == password,
            final(self).speech_name == old(self).speech_name,
    {
        self.wifi_ssid = ssid;
        self.wifi_password = password;
    }
}

} // verus!
