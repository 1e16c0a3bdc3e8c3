//! Where the store is reached: a value that is made once at start-up and handed
//! on.

use vstd::prelude::*;
use vstd::string::*;

verus! {

/// The address and the account under which the store is reached.
#[derive(Clone, Debug, PartialEq, Eq)]
pub struct StoreConfig {
    pub host: String,
    pub port: u16,
    pub user: String,
    pub password: String,
}

/// The configuration as plain values.
pub struct StoreConfigView {
    pub host: Seq<char>,
    pub port: u16,
    pub user: Seq<char>,
    pub password: Seq<char>,
}

impl View for StoreConfig {
    type V = StoreConfigView;

    open spec fn view(&self) -> StoreConfigView {
        StoreConfigView {
            host: self.host@,
            port: self.port,
            user: self.user@,
            password: self.password@,
        }
    }
}

/// The character of a decimal digit.
pub open spec fn digit(d: int) -> char {
    if d == 0 {
        '0'
    } else if d == 1 {
        '1'
    } else if d == 2 {
        '2'
    } else if d == 3 {
        '3'
    } else if d == 4 {
        '4'
    } else if d == 5 {
        '5'
    } else if d == 6 {
        '6'
    } else if d == 7 {
        '7'
    } else if d == 8 {
        '8'
    } else {
        '9'
    }
}

/// A number in decimal, without leading zeros.
pub open spec fn decimal(n: nat) -> Seq<char>
    decreases n,
{
    if n < 10 {
        seq![digit(n as int)]
    } else {
        decimal(n / 10).push(digit((n % 10) as int))
    }
}

impl StoreConfigView {
    /// The configuration that is used where none is given: the local store on
    /// its usual port, as `admin` without a password.
    pub open spec fn fallback() -> StoreConfigView {
        StoreConfigView { host: "localhost"@, port: 27017, user: "admin"@, password: ""@ }
    }

    /// The address of the store as one string.
    pub open spec fn url(self) -> Seq<char> {
        "mongodb://"@ + self.user + ":"@ + self.password + "@"@ + self.host + ":"@ + decimal(
            self.port as nat,
        ) + "/"@
    }
}

fn digit_str(d: u16) -> (text: &'static str)
    requires
        d < 10,
    ensures
        text@ == seq![digit(d as int)],
{
    let text = if d == 0 {
        proof {
            reveal_strlit("0");
        }
        "0"
    } else if d == 1 {
        proof {
            reveal_strlit("1");
        }
        "1"
    } else if d == 2 {
        proof {
            reveal_strlit("2");
        }
        "2"
    } else if d == 3 {
        proof {
            reveal_strlit("3");
        }
        "3"
    } else if d == 4 {
        proof {
            reveal_strlit("4");
        }
        "4"
    } else if d == 5 {
        proof {
            reveal_strlit("5");
        }
        "5"
    } else if d == 6 {
        proof {
            reveal_strlit("6");
        }
        "6"
    } else if d == 7 {
        proof {
            reveal_strlit("7");
        }
        "7"
    } else if d == 8 {
        proof {
            reveal_strlit("8");
        }
        "8"
    } else {
        proof {
            reveal_strlit("9");
        }
        "9"
    };
    assert(text@ =~= seq![digit(d as int)]);
    text
}

fn append_decimal(text: &mut String, n: u16)
    ensures
        final(text)@ == old(text)@ + decimal(n as nat),
    decreases n,
{
    if n >= 10 {
        append_decimal(text, n / 10);
        text.append(digit_str(n % 10));
        assert(old(text)@ + decimal((n / 10) as nat) + seq![digit((n % 10) as int)] =~= old(text)@
            + decimal(n as nat));
    } else {
        text.append(digit_str(n));
    }
}

/// `n` in decimal, without leading zeros.
pub fn port_string(n: u16) -> (text: String)
    ensures
        text@ == decimal(n as nat),
{
    let mut text = String::new();
    append_decimal(&mut text, n);
    assert(Seq::<char>::empty() + decimal(n as nat) =~= decimal(n as nat));
    text
}

impl StoreConfig {
    /// The address of the store as one string: scheme, account, host and port.
    pub fn connection_url(&self) -> (url: String)
        ensures
            url@ == self@.url(),
    {
        let port = port_string(self.port);
        let mut url = String::from_str("mongodb://");
        url.append(self.user.as_str());
        url.append(":");
        url.append(self.password.as_str());
        url.append("@");
        url.append(self.host.as_str());
        url.append(":");
        url.append(port.as_str());
        url.append("/");
        url
    }
}

impl Default for StoreConfig {
    /// The configuration that is used where none is given.
    fn default() -> (config: StoreConfig)
        ensures
            config@ == StoreConfigView::fallback(),
    {
        proof {
            reveal_strlit("");
            assert(""@ =~= Seq::<char>::empty());
        }
        StoreConfig {
            host: "localhost".to_owned(),
            port: 27017,
            user: "admin".to_owned(),
            password: String::new(),
        }
    }
}

} // verus!
