use vstd::prelude::*;

verus! {

/// The account with which reports are mailed.
pub struct Client {
    pub login: String,
    pub password: String,
    pub server: String,
    pub port: u16,
}

impl Client {
    pub fn new(login: &str, password: &str, server: &str, port: u16) -> (res: Client)
        ensures
            res.login@ == login@,
            res.password@ == password@,
            res.server@ == server@,
            res.port == port,
    {
        Client {
            login: String::from_str(login),
            password: String::from_str(password),
            server: String::from_str(server),
            port: port,
        }
    }
}

} // verus!
