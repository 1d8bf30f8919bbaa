use vstd::prelude::*;

verus! {

/// Outcome of a signup.
#[derive(Clone, Copy, Debug, PartialEq, Eq, Structural)]
pub enum SignupOutcome {
    Created,
    AlreadyExists,
}

/// Outcome of a login.
#[derive(Clone, Copy, Debug, PartialEq, Eq, Structural)]
pub enum LoginOutcome {
    Accepted,
    Invalid,
}

/// Reply text for a signup outcome.
pub open spec fn signup_text(o: SignupOutcome) -> Seq<char> {
    match o {
        SignupOutcome::Created => "Signup successful"@,
        SignupOutcome::AlreadyExists => "User already exists"@,
    }
}

/// Reply text for a login outcome.
pub open spec fn login_text(o: LoginOutcome) -> Seq<char> {
    match o {
        LoginOutcome::Accepted => "Login Successful"@,
        LoginOutcome::Invalid => "Invalid credentials"@,
    }
}

impl SignupOutcome {
    /// The reply text sent to the client.
    pub fn message(&self) -> (r: String)
        ensures
            r@ == signup_text(*self),
    {
        match self {
            SignupOutcome::Created => String::from_str("Signup successful"),
            SignupOutcome::AlreadyExists => String::from_str("User already exists"),
        }
    }
}

impl LoginOutcome {
    /// The reply text sent to the client.
    pub fn message(&self) -> (r: String)
        ensures
            r@ == login_text(*self),
    {
        match self {
            LoginOutcome::Accepted => String::from_str("Login Successful"),
            LoginOutcome::Invalid => String::from_str("Invalid credentials"),
        }
    }
}

/// A registered username and its secret.
#[derive(Clone, Debug)]
pub struct Credential {
    pub username: String,
    pub password: String,
}

/// Username to secret store; a username is registered at most once.
pub struct UserStore {
    entries: Vec<Credential>,
    model: Ghost<Map<Seq<char>, Seq<char>>>,
}

impl View for UserStore {
    type V = Map<Seq<char>, Seq<char>>;

    closed spec fn view(&self) -> Map<Seq<char>, Seq<char>> {
        self.model@
    }
}

impl UserStore {
    /// The stored entries agree with the model, with no username stored twice.
    pub closed spec fn wf(&self) -> bool {
        &&& forall|i: int, j: int|
            0 <= i < self.entries.len() && 0 <= j < self.entries.len() && i != j
                ==> #[trigger] self.entries@[i].username@ != #[trigger] self.entries@[j].username@
        &&& forall|i: int|
            0 <= i < self.entries.len() ==> {
                &&& self.model@.contains_key(#[trigger] self.entries@[i].username@)
                &&& self.model@[self.entries@[i].username@] == self.entries@[i].password@
            }
        &&& forall|k: Seq<char>|
            #[trigger] self.model@.contains_key(k) ==> exists|i: int|
                0 <= i < self.entries.len() && self.entries@[i].username@ == k
    }

    /// A store with no users.
    pub fn new() -> (r: UserStore)
        ensures
            r.wf(),
            r@ == Map::<Seq<char>, Seq<char>>::empty(),
    {
        UserStore { entries: Vec::new(), model: Ghost(Map::empty()) }
    }

    /// Position of the entry for `username`, if there is one.
    fn find(&self, username: &String) -> (r: Option<usize>)
        requires
            self.wf(),
        ensures
            match r {
                Some(i) => i < self.entries.len() && self.entries@[i as int].username@
                    == username@ && self@.contains_key(username@),
                None => !self@.contains_key(username@),
            },
    {
        let mut i: usize = 0;
        while i < self.entries.len()
            invariant
                self.wf(),
                i <= self.entries.len(),
                forall|j: int| 0 <= j < i ==> self.entries@[j].username@ != username@,
            decreases self.entries.len() - i,
        {
            if self.entries[i].username == *username {
                return Some(i);
            }
            i = i + 1;
        }
        None
    }

    /// Registers `username` with `password` unless that username is taken.
    pub fn signup(&mut self, username: String, password: String) -> (r: SignupOutcome)
        requires
            old(self).wf(),
        ensures
            final(self).wf(),
            old(self)@.contains_key(username@) ==> r == SignupOutcome::AlreadyExists
                && final(self)@ == old(self)@,
            !old(self)@.contains_key(username@) ==> r == SignupOutcome::Created && final(self)@
                == old(self)@.insert(username@, password@),
    {
        match self.find(&username) {
            Some(_) => SignupOutcome::AlreadyExists,
            None => {
                let ghost key = username@;
                let ghost secret = password@;
                let ghost before = self.entries@;
                self.entries.push(Credential { username, password });
                self.model = Ghost(self.model@.insert(key, secret));
                assert forall|k: Seq<char>| #[trigger] self.model@.contains_key(k) implies exists|
                    i: int,
                | 0 <= i < self.entries.len() && self.entries@[i].username@ == k by {
                    if k == key {
                        assert(self.entries@[before.len() as int].username@ == k);
                    } else {
                        let i = choose|i: int| 0 <= i < before.len() && before[i].username@ == k;
                        assert(self.entries@[i].username@ == k);
                    }
                }
                SignupOutcome::Created
            },
        }
    }

    /// Checks `password` against the secret registered for `username`.
    pub fn login(&self, username: &String, password: &String) -> (r: LoginOutcome)
        requires
            self.wf(),
        ensures
            r == (if self@.contains_key(username@) && self@[username@] == password@ {
                LoginOutcome::Accepted
            } else {
                LoginOutcome::Invalid
            }),
    {
        match self.find(username) {
            Some(i) => {
                if self.entries[i].password == *password {
                    LoginOutcome::Accepted
                } else {
                    LoginOutcome::Invalid
                }
            },
            None => LoginOutcome::Invalid,
        }
    }
}

} // verus!
