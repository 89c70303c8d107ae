//! A proxy and the browser extension that routes a session through it.

use vstd::prelude::*;
use vstd::string::StringExecFns;

verus! {

/// The manifest of the extension.
pub const MANIFEST: &'static str = "\n    {\n        \"version\": \"1.0.0\",\n        \"manifest_version\": 3,\n        \"name\": \"Chrome Proxy\",\n        \"permissions\": [\n        \"Proxy\",\n        \"Tabs\",\n        \"unlimitedStorage\",\n        \"Storage\",\n        \"<all_urls>\",\n        \"webRequest\",\n        \"webRequestBlocking\"\n        ],\n        \"background\": {\n        \"scripts\": [\"background.js\"]\n        },\n        \"Minimum_chrome_version\":\"76.0.0\"\n        }    \n    ";

/// The user agent that the session shows.
pub const USER_AGENT: &'static str = "Mozilla/5.0 (Linux; Android 4.4.2; X325\u{2013}Locked to Life Wireless Build/KOT49H) AppleWebKit/537.36 (KHTML, like Gecko) Version/4.0 Chrome/30.0.0.0 Mobile Safari/537.36 TwitterAndroid";

/// The background script up to the proxy's host.
pub const SCRIPT_HEAD: &'static str = "\n        var config = {\n            mode: \"fixed_servers\",\n            rules: {\n            singleProxy: {\n            scheme: \"http\",\n            host: \"";

/// The background script between the host and the user name.
pub const SCRIPT_BEFORE_USER: &'static str = "\",\n            port: parseInt(PROXY_PORT)\n            },\n            bypassList: [\"foobar.com\"]\n            }\n            };\n            chrome.proxy.settings.set({value: config, scope: \"regular\"}, function() {});\n            function callbackFn(details) {\n            return {\n            authCredentials: {\n            username: \"";

/// The background script between the user name and the password.
pub const SCRIPT_BEFORE_PASSWORD: &'static str = "\",\n            password: \"";

/// The background script behind the password.
pub const SCRIPT_TAIL: &'static str = "\"\n            }\n            };\n            }\n            \n            chrome.webRequest.onAuthRequired.addListener(\n            callbackFn,\n            {urls: [\"<all_urls>\"]},\n            ['blocking']\n            );\n\n        \n        ";

/// A proxy with the credentials to use it.
pub struct Proxy {
    host: String,
    username: String,
    password: String,
}

impl Proxy {
    pub closed spec fn spec_host(&self) -> Seq<char> {
        self.host@
    }

    pub closed spec fn spec_username(&self) -> Seq<char> {
        self.username@
    }

    pub closed spec fn spec_password(&self) -> Seq<char> {
        self.password@
    }

    /// The name of the extension's archive.
    pub open spec fn archive_name(&self) -> Seq<char> {
        self.spec_host() + "-"@ + self.spec_username() + ".crx"@
    }

    /// The background script of the extension: the fixed text with the
    /// host, the user name and the password in their places.
    pub open spec fn background(&self) -> Seq<char> {
        SCRIPT_HEAD@ + self.spec_host() + SCRIPT_BEFORE_USER@ + self.spec_username()
            + SCRIPT_BEFORE_PASSWORD@ + self.spec_password() + SCRIPT_TAIL@
    }

    pub fn new(host: String, username: String, password: String) -> (proxy: Self)
        ensures
            proxy.spec_host() == host@,
            proxy.spec_username() == username@,
            proxy.spec_password() == password@,
    {
        Proxy { host, username, password }
    }

    pub fn host(&self) -> (host: &String)
        ensures
            host@ == self.spec_host(),
    {
        &self.host
    }

    pub fn username(&self) -> (username: &String)
        ensures
            username@ == self.spec_username(),
    {
        &self.username
    }

    /// The file that the extension is loaded from.
    pub fn extension_file(&self) -> (name: String)
        ensures
            name@ == self.archive_name(),
    {
        let mut name = self.host.clone();
        name.append("-");
        name.append(self.username.as_str());
        name.append(".crx");
        name
    }

    /// The path that the extension is written to: its file, in the working
    /// directory.
    pub fn extension_path(&self) -> (path: String)
        ensures
            path@ == "./"@ + self.archive_name(),
    {
        let mut path = String::from_str("./");
        path.append(self.extension_file().as_str());
        path
    }

    pub fn background_script(&self) -> (script: String)
        ensures
            script@ == self.background(),
    {
        let mut script = String::from_str(SCRIPT_HEAD);
        script.append(self.host.as_str());
        script.append(SCRIPT_BEFORE_USER);
        script.append(self.username.as_str());
        script.append(SCRIPT_BEFORE_PASSWORD);
        script.append(self.password.as_str());
        script.append(SCRIPT_TAIL);
        script
    }
}

} // verus!
