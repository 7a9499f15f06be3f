//! Process configuration: where the broker, the store and the web server
//! are found.

use vstd::prelude::*;

verus! {

/// Settings read once at startup.
#[derive(Debug, PartialEq, Eq)]
pub struct Config {
    pub username: String,
    pub password: String,
    pub mqtt_ip: String,
    pub mqtt_port: u16,
    /// The topics the pipeline subscribes to.
    pub mqtt_topics: Vec<String>,
    pub sqlite_database: String,
    pub web_server_ip: String,
    pub web_server_port: u16,
}

/// What a `Config` says, with every text as a sequence of characters.
pub struct ConfigView {
    pub username: Seq<char>,
    pub password: Seq<char>,
    pub mqtt_ip: Seq<char>,
    pub mqtt_port: u16,
    pub mqtt_topics: Seq<Seq<char>>,
    pub sqlite_database: Seq<char>,
    pub web_server_ip: Seq<char>,
    pub web_server_port: u16,
}

impl View for Config {
    type V = ConfigView;

    open spec fn view(&self) -> ConfigView {
        ConfigView {
            username: self.username@,
            password: self.password@,
            mqtt_ip: self.mqtt_ip@,
            mqtt_port: self.mqtt_port,
            mqtt_topics: self.mqtt_topics.deep_view(),
            sqlite_database: self.sqlite_database@,
            web_server_ip: self.web_server_ip@,
            web_server_port: self.web_server_port,
        }
    }
}

/// A copy of a list of texts.
pub fn clone_texts(texts: &Vec<String>) -> (r: Vec<String>)
    ensures
        r.deep_view() == texts.deep_view(),
{
    let mut out: Vec<String> = Vec::new();
    let mut i: usize = 0;
    while i < texts.len()
        invariant
            i <= texts.len(),
            out.len() == i,
            forall|j: int| 0 <= j < i ==> out[j]@ == texts[j]@,
        decreases texts.len() - i,
    {
        out.push(texts[i].clone());
        i = i + 1;
    }
    assert(out.deep_view() =~= texts.deep_view());
    out
}

impl Config {
    /// An independent copy that says the same as `self`.
    pub fn clone(&self) -> (r: Self)
        ensures
            r@ == self@,
    {
        Config {
            username: self.username.clone(),
            password: self.password.clone(),
            mqtt_ip: self.mqtt_ip.clone(),
            mqtt_port: self.mqtt_port,
            mqtt_topics: clone_texts(&self.mqtt_topics),
            sqlite_database: self.sqlite_database.clone(),
            web_server_ip: self.web_server_ip.clone(),
            web_server_port: self.web_server_port,
        }
    }
}

} // verus!
