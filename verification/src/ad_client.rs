//! The directory client: its settings, the entries a directory returns and
//! the user records they are normalized into.
use crate::encoding::{base64_standard, encodable, encode_standard, fits};
use crate::text::{decimal, decimal_string, str_eq};
use vstd::prelude::*;
use vstd::string::*;

verus! {

/// The characters of an optional string.
pub open spec fn text_of(value: Option<String>) -> Option<Seq<char>> {
    match value {
        Some(s) => Some(s@),
        None => None,
    }
}

/// One normalized directory entry. Only the distinguished name is always
/// there; an absent field stays absent.
#[derive(Debug, Clone, PartialEq, Eq)]
pub struct ADUser {
    pub dn: String,
    pub name: Option<String>,
    pub email: Option<String>,
    pub login: Option<String>,
    pub title: Option<String>,
    pub department: Option<String>,
    pub manager_dn: Option<String>,
    pub phone: Option<String>,
    pub mobile: Option<String>,
    pub photo_base64: Option<String>,
}

/// What an `ADUser` holds, as sequences of characters.
pub struct UserView {
    pub dn: Seq<char>,
    pub name: Option<Seq<char>>,
    pub email: Option<Seq<char>>,
    pub login: Option<Seq<char>>,
    pub title: Option<Seq<char>>,
    pub department: Option<Seq<char>>,
    pub manager_dn: Option<Seq<char>>,
    pub phone: Option<Seq<char>>,
    pub mobile: Option<Seq<char>>,
    pub photo_base64: Option<Seq<char>>,
}

impl View for ADUser {
    type V = UserView;

    open spec fn view(&self) -> UserView {
        UserView {
            dn: self.dn@,
            name: text_of(self.name),
            email: text_of(self.email),
            login: text_of(self.login),
            title: text_of(self.title),
            department: text_of(self.department),
            manager_dn: text_of(self.manager_dn),
            phone: text_of(self.phone),
            mobile: text_of(self.mobile),
            photo_base64: text_of(self.photo_base64),
        }
    }
}

/// The views of a list of users, in order.
pub open spec fn user_views(users: Seq<ADUser>) -> Seq<UserView> {
    Seq::new(users.len(), |i: int| users[i]@)
}

/// A text attribute of a directory entry with its values.
#[derive(Debug, Clone, PartialEq, Eq)]
pub struct TextAttribute {
    pub name: String,
    pub values: Vec<String>,
}

/// A binary attribute of a directory entry with its values.
#[derive(Debug, Clone, PartialEq, Eq)]
pub struct BinaryAttribute {
    pub name: String,
    pub values: Vec<Vec<u8>>,
}

/// One entry as the directory returned it: its distinguished name and its
/// attributes. A directory lists each name once (`well_formed`); of an
/// entry that lists a name twice, the first listing counts.
#[derive(Debug, Clone, PartialEq, Eq)]
pub struct DirectoryEntry {
    pub dn: String,
    pub attrs: Vec<TextAttribute>,
    pub bin_attrs: Vec<BinaryAttribute>,
}

/// The first value of the first attribute called `name`.
pub open spec fn first_text(attrs: Seq<TextAttribute>, name: Seq<char>) -> Option<Seq<char>>
    decreases attrs.len(),
{
    if attrs.len() == 0 {
        None
    } else if attrs[0].name@ == name {
        if attrs[0].values@.len() > 0 {
            Some(attrs[0].values@[0]@)
        } else {
            None
        }
    } else {
        first_text(attrs.drop_first(), name)
    }
}

/// The first value of the first binary attribute called `name`.
pub open spec fn first_binary(attrs: Seq<BinaryAttribute>, name: Seq<char>) -> Option<Seq<u8>>
    decreases attrs.len(),
{
    if attrs.len() == 0 {
        None
    } else if attrs[0].name@ == name {
        if attrs[0].values@.len() > 0 {
            Some(attrs[0].values@[0]@)
        } else {
            None
        }
    } else {
        first_binary(attrs.drop_first(), name)
    }
}

/// Whether no two of the attributes have the same name.
pub open spec fn distinct_names(attrs: Seq<TextAttribute>) -> bool {
    forall|i: int, j: int| 0 <= i < j < attrs.len() ==> attrs[i].name@ != attrs[j].name@
}

/// Whether no two of the binary attributes have the same name.
pub open spec fn distinct_binary_names(attrs: Seq<BinaryAttribute>) -> bool {
    forall|i: int, j: int| 0 <= i < j < attrs.len() ==> attrs[i].name@ != attrs[j].name@
}

/// The first of `values`, if there is one.
pub open spec fn first_of(values: Seq<String>) -> Option<Seq<char>> {
    if values.len() > 0 {
        Some(values[0]@)
    } else {
        None
    }
}

/// The first of the binary `values`, if there is one.
pub open spec fn first_bytes_of(values: Seq<Vec<u8>>) -> Option<Seq<u8>> {
    if values.len() > 0 {
        Some(values[0]@)
    } else {
        None
    }
}

/// Where each name is listed once, the value looked up under a name is the
/// first value of the attribute with that name, wherever it is listed, and
/// there is none under a name that is not listed.
pub proof fn lemma_lookup_by_name(attrs: Seq<TextAttribute>, name: Seq<char>)
    requires
        distinct_names(attrs),
    ensures
        forall|i: int|
            0 <= i < attrs.len() && attrs[i].name@ == name ==> first_text(attrs, name) == first_of(
                #[trigger] attrs[i].values@,
            ),
        (forall|i: int| 0 <= i < attrs.len() ==> (#[trigger] attrs[i]).name@ != name)
            ==> first_text(attrs, name) is None,
    decreases attrs.len(),
{
    if attrs.len() > 0 {
        let rest = attrs.drop_first();
        assert forall|i: int, j: int| 0 <= i < j < rest.len() implies rest[i].name@
            != rest[j].name@ by {
            assert(rest[i] == attrs[i + 1] && rest[j] == attrs[j + 1]);
        }
        lemma_lookup_by_name(rest, name);
        assert forall|i: int| 0 <= i < attrs.len() && attrs[i].name@ == name implies first_text(
            attrs,
            name,
        ) == first_of(#[trigger] attrs[i].values@) by {
            if i > 0 {
                assert(rest[i - 1] == attrs[i]);
            }
        }
        if forall|i: int| 0 <= i < attrs.len() ==> (#[trigger] attrs[i]).name@ != name {
            assert forall|i: int| 0 <= i < rest.len() implies (#[trigger] rest[i]).name@
                != name by {
                assert(rest[i] == attrs[i + 1]);
            }
        }
    }
}

/// Where each name is listed once, the bytes looked up under a name are the
/// first value of the binary attribute with that name, wherever it is
/// listed, and there are none under a name that is not listed.
pub proof fn lemma_binary_lookup_by_name(attrs: Seq<BinaryAttribute>, name: Seq<char>)
    requires
        distinct_binary_names(attrs),
    ensures
        forall|i: int|
            0 <= i < attrs.len() && attrs[i].name@ == name ==> first_binary(attrs, name)
                == first_bytes_of(#[trigger] attrs[i].values@),
        (forall|i: int| 0 <= i < attrs.len() ==> (#[trigger] attrs[i]).name@ != name)
            ==> first_binary(attrs, name) is None,
    decreases attrs.len(),
{
    if attrs.len() > 0 {
        let rest = attrs.drop_first();
        assert forall|i: int, j: int| 0 <= i < j < rest.len() implies rest[i].name@
            != rest[j].name@ by {
            assert(rest[i] == attrs[i + 1] && rest[j] == attrs[j + 1]);
        }
        lemma_binary_lookup_by_name(rest, name);
        assert forall|i: int| 0 <= i < attrs.len() && attrs[i].name@ == name implies first_binary(
            attrs,
            name,
        ) == first_bytes_of(#[trigger] attrs[i].values@) by {
            if i > 0 {
                assert(rest[i - 1] == attrs[i]);
            }
        }
        if forall|i: int| 0 <= i < attrs.len() ==> (#[trigger] attrs[i]).name@ != name {
            assert forall|i: int| 0 <= i < rest.len() implies (#[trigger] rest[i]).name@
                != name by {
                assert(rest[i] == attrs[i + 1]);
            }
        }
    }
}

impl DirectoryEntry {
    /// Whether the entry lists each attribute name once, as a directory
    /// does.
    pub open spec fn well_formed(self) -> bool {
        distinct_names(self.attrs@) && distinct_binary_names(self.bin_attrs@)
    }

    /// The first value of the text attribute `name`.
    pub open spec fn text(self, name: Seq<char>) -> Option<Seq<char>> {
        first_text(self.attrs@, name)
    }

    /// The entry's department.
    pub open spec fn department(self) -> Option<Seq<char>> {
        self.text("department"@)
    }

    /// The entry's mail address.
    pub open spec fn email(self) -> Option<Seq<char>> {
        self.text("mail"@)
    }

    /// The entry's thumbnail photo.
    pub open spec fn photo(self) -> Option<Seq<u8>> {
        first_binary(self.bin_attrs@, "thumbnailPhoto"@)
    }

    /// Whether the configured filters leave the entry out: it lacks a
    /// department that is required, or a mail address that is required.
    pub open spec fn excluded(self, require_department: bool, require_email: bool) -> bool {
        (require_department && self.department() is None) || (require_email && self.email()
            is None)
    }

    /// The photo as text: only where it is asked for and the entry has one.
    pub open spec fn photo_text(self, include_photo: bool) -> Option<Seq<char>> {
        if include_photo {
            match self.photo() {
                Some(bytes) => if encodable(bytes.len()) {
                    Some(base64_standard(bytes))
                } else {
                    None
                },
                None => None,
            }
        } else {
            None
        }
    }

    /// The user record that the entry is normalized into.
    pub open spec fn normalized(self, include_photo: bool) -> UserView {
        UserView {
            dn: self.dn@,
            name: self.text("cn"@),
            email: self.email(),
            login: self.text("sAMAccountName"@),
            title: self.text("title"@),
            department: self.department(),
            manager_dn: self.text("manager"@),
            phone: self.text("telephoneNumber"@),
            mobile: self.text("mobile"@),
            photo_base64: self.photo_text(include_photo),
        }
    }

    /// The profile that a successful sign-in with the login `login` yields.
    pub open spec fn profile(self, login: Seq<char>) -> UserView {
        UserView {
            dn: self.dn@,
            name: self.text("cn"@),
            email: self.email(),
            login: Some(login),
            title: self.text("title"@),
            department: self.department(),
            manager_dn: self.text("manager"@),
            phone: None,
            mobile: None,
            photo_base64: None,
        }
    }

    /// The first value of the text attribute `name`.
    pub fn value(&self, name: &str) -> (value: Option<String>)
        ensures
            text_of(value) == self.text(name@),
    {
        lookup_text(&self.attrs, name)
    }

    /// The first value of the binary attribute `name`, as base64 text.
    pub fn encoded_value(&self, name: &str) -> (value: Option<String>)
        ensures
            text_of(value) == match first_binary(self.bin_attrs@, name@) {
                Some(bytes) => if encodable(bytes.len()) {
                    Some(base64_standard(bytes))
                } else {
                    None
                },
                None => None,
            },
    {
        let mut i: usize = 0;
        proof {
            assert(self.bin_attrs@.skip(0) =~= self.bin_attrs@);
        }
        while i < self.bin_attrs.len()
            invariant
                i <= self.bin_attrs.len(),
                first_binary(self.bin_attrs@, name@) == first_binary(
                    self.bin_attrs@.skip(i as int),
                    name@,
                ),
            decreases self.bin_attrs.len() - i,
        {
            let attr = &self.bin_attrs[i];
            proof {
                assert(self.bin_attrs@.skip(i as int)[0] == self.bin_attrs@[i as int]);
                assert(self.bin_attrs@.skip(i as int).drop_first() =~= self.bin_attrs@.skip(
                    i + 1,
                ));
            }
            if str_eq(attr.name.as_str(), name) {
                if attr.values.len() > 0 && fits(attr.values[0].len()) {
                    return Some(encode_standard(&attr.values[0]));
                }
                return None;
            }
            i += 1;
        }
        None
    }

    /// Normalizes the entry into a user record.
    pub fn normalize(&self, include_photo: bool) -> (user: ADUser)
        ensures
            user@ == self.normalized(include_photo),
    {
        let photo_base64 = if include_photo {
            self.encoded_value("thumbnailPhoto")
        } else {
            None
        };
        ADUser {
            dn: self.dn.clone(),
            name: self.value("cn"),
            email: self.value("mail"),
            login: self.value("sAMAccountName"),
            title: self.value("title"),
            department: self.value("department"),
            manager_dn: self.value("manager"),
            phone: self.value("telephoneNumber"),
            mobile: self.value("mobile"),
            photo_base64,
        }
    }
}

/// Counts of one synchronization pass.
#[derive(Debug, Clone, Copy, PartialEq, Eq)]
pub struct SyncStats {
    pub total_in_ad: usize,
    pub with_department: usize,
    pub without_department: usize,
    pub with_email: usize,
    pub without_email: usize,
    pub filtered_out: usize,
    pub returned: usize,
}

impl SyncStats {
    /// Whether the counts add up: every entry seen either has a department
    /// or has none, likewise a mail address, and was either filtered out or
    /// returned.
    pub open spec fn consistent(self) -> bool {
        &&& self.with_department + self.without_department == self.total_in_ad
        &&& self.with_email + self.without_email == self.total_in_ad
        &&& self.filtered_out + self.returned == self.total_in_ad
    }

    /// The counts before any entry was seen.
    pub fn empty() -> (stats: SyncStats)
        ensures
            stats == (SyncStats {
                total_in_ad: 0,
                with_department: 0,
                without_department: 0,
                with_email: 0,
                without_email: 0,
                filtered_out: 0,
                returned: 0,
            }),
    {
        SyncStats {
            total_in_ad: 0,
            with_department: 0,
            without_department: 0,
            with_email: 0,
            without_email: 0,
            filtered_out: 0,
            returned: 0,
        }
    }
}

/// Why the directory could not be used.
#[derive(Debug, Clone, PartialEq, Eq)]
pub enum DirectoryError {
    /// No connection, or the service account was not let in; with the text
    /// that says which.
    Unavailable(String),
}

impl DirectoryError {
    /// The text of the error.
    pub open spec fn text(self) -> Seq<char> {
        match self {
            DirectoryError::Unavailable(message) => message@,
        }
    }

    /// The text of the error.
    pub fn message(&self) -> (message: String)
        ensures
            message@ == self.text(),
    {
        match self {
            DirectoryError::Unavailable(message) => message.clone(),
        }
    }
}

/// The first value of the first attribute called `name`.
pub fn lookup_text(attrs: &Vec<TextAttribute>, name: &str) -> (value: Option<String>)
    ensures
        text_of(value) == first_text(attrs@, name@),
{
    let mut i: usize = 0;
    proof {
        assert(attrs@.skip(0) =~= attrs@);
    }
    while i < attrs.len()
        invariant
            i <= attrs.len(),
            first_text(attrs@, name@) == first_text(attrs@.skip(i as int), name@),
        decreases attrs.len() - i,
    {
        let attr = &attrs[i];
        proof {
            assert(attrs@.skip(i as int)[0] == attrs@[i as int]);
            assert(attrs@.skip(i as int).drop_first() =~= attrs@.skip(i + 1));
        }
        if str_eq(attr.name.as_str(), name) {
            if attr.values.len() > 0 {
                return Some(attr.values[0].clone());
            }
            return None;
        }
        i += 1;
    }
    None
}

/// The directory filter that selects the active, not disabled, user entries.
pub fn search_filter() -> (filter: &'static str)
    ensures
        filter@
            == "(&(objectClass=user)(objectCategory=person)(!(userAccountControl:1.2.840.113556.1.4.803:=2)))"@,
{
    "(&(objectClass=user)(objectCategory=person)(!(userAccountControl:1.2.840.113556.1.4.803:=2)))"
}

/// The number of entries asked for in one page.
pub const PAGE_SIZE: i32 = 500;

/// The attributes that a synchronization pass asks for.
pub open spec fn requested_attributes(include_photo: bool) -> Seq<Seq<char>> {
    let fixed = seq![
        "cn"@,
        "mail"@,
        "sAMAccountName"@,
        "userPrincipalName"@,
        "title"@,
        "department"@,
        "manager"@,
        "telephoneNumber"@,
        "mobile"@,
    ];
    if include_photo {
        fixed.push("thumbnailPhoto"@)
    } else {
        fixed
    }
}

/// The characters of each string of a list.
pub open spec fn texts(list: Seq<&'static str>) -> Seq<Seq<char>> {
    Seq::new(list.len(), |i: int| list[i]@)
}

/// The attributes that a synchronization pass asks for: a fixed set, and
/// the photo only where it is wanted.
pub fn sync_attributes(include_photo: bool) -> (attrs: Vec<&'static str>)
    ensures
        texts(attrs@) == requested_attributes(include_photo),
{
    let mut attrs: Vec<&'static str> = Vec::new();
    attrs.push("cn");
    attrs.push("mail");
    attrs.push("sAMAccountName");
    attrs.push("userPrincipalName");
    attrs.push("title");
    attrs.push("department");
    attrs.push("manager");
    attrs.push("telephoneNumber");
    attrs.push("mobile");
    if include_photo {
        attrs.push("thumbnailPhoto");
    }
    proof {
        assert(texts(attrs@) =~= requested_attributes(include_photo));
    }
    attrs
}

/// The step of connecting at which the directory failed.
#[derive(Debug, Clone, Copy, PartialEq, Eq, Structural)]
pub enum ConnectStep {
    /// The connection could not be opened.
    Open,
    /// The sign-in request could not be sent or answered.
    Bind,
    /// The directory answered the sign-in with a refusal.
    BindResult,
}

/// The words that introduce a failure at `step`.
pub open spec fn failure_prefix(step: ConnectStep) -> Seq<char> {
    match step {
        ConnectStep::Open => "Failed to connect to AD: "@,
        ConnectStep::Bind => "Failed to bind to AD: "@,
        ConnectStep::BindResult => "Bind failed: "@,
    }
}

/// The error for a failure at `step` that the directory described as
/// `detail`.
pub fn connect_error(step: ConnectStep, detail: &str) -> (error: DirectoryError)
    ensures
        error.text() == failure_prefix(step) + detail@,
{
    let prefix = match step {
        ConnectStep::Open => "Failed to connect to AD: ",
        ConnectStep::Bind => "Failed to bind to AD: ",
        ConnectStep::BindResult => "Bind failed: ",
    };
    DirectoryError::Unavailable(String::from_str(prefix).concat(detail))
}

/// The settings of the directory client.
#[derive(Debug, Clone, PartialEq, Eq)]
pub struct ADClient {
    server: String,
    port: u16,
    use_ssl: bool,
    bind_user: String,
    bind_password: String,
    base_dn: String,
    users_ou: String,
}

/// What an `ADClient` holds, as sequences of characters.
pub struct ClientView {
    pub server: Seq<char>,
    pub port: u16,
    pub use_ssl: bool,
    pub bind_user: Seq<char>,
    pub bind_password: Seq<char>,
    pub base_dn: Seq<char>,
    pub users_ou: Seq<char>,
}

impl View for ADClient {
    type V = ClientView;

    closed spec fn view(&self) -> ClientView {
        ClientView {
            server: self.server@,
            port: self.port,
            use_ssl: self.use_ssl,
            bind_user: self.bind_user@,
            bind_password: self.bind_password@,
            base_dn: self.base_dn@,
            users_ou: self.users_ou@,
        }
    }
}

impl ADClient {
    /// A client for the directory at `server` and `port`, signing in as
    /// `bind_user`. The users' organizational unit is derived from the base.
    pub fn new(
        server: &str,
        port: u16,
        use_ssl: bool,
        bind_user: &str,
        bind_password: &str,
        base_dn: &str,
    ) -> (client: ADClient)
        ensures
            client@ == (ClientView {
                server: server@,
                port,
                use_ssl,
                bind_user: bind_user@,
                bind_password: bind_password@,
                base_dn: base_dn@,
                users_ou: "OU=EKF-USERS,"@ + base_dn@,
            }),
    {
        let users_ou = String::from_str("OU=EKF-USERS,").concat(base_dn);
        ADClient {
            server: server.to_owned(),
            port,
            use_ssl,
            bind_user: bind_user.to_owned(),
            bind_password: bind_password.to_owned(),
            base_dn: base_dn.to_owned(),
            users_ou,
        }
    }

    /// The address of the directory: the scheme that `use_ssl` selects, the
    /// server and the port in decimal.
    pub open spec fn url_text(self) -> Seq<char> {
        (if self@.use_ssl {
            "ldaps://"@
        } else {
            "ldap://"@
        }) + self@.server + ":"@ + decimal(self@.port as nat)
    }

    /// The address of the directory.
    pub fn url(&self) -> (url: String)
        ensures
            url@ == self.url_text(),
    {
        let scheme = if self.use_ssl {
            "ldaps://"
        } else {
            "ldap://"
        };
        let port = decimal_string(self.port as u64);
        String::from_str(scheme).concat(self.server.as_str()).concat(":").concat(port.as_str())
    }

    /// The account that the client signs in as.
    pub fn bind_user(&self) -> (user: &str)
        ensures
            user@ == self@.bind_user,
    {
        self.bind_user.as_str()
    }

    /// The password of that account.
    pub fn bind_password(&self) -> (password: &str)
        ensures
            password@ == self@.bind_password,
    {
        self.bind_password.as_str()
    }

    /// The base of every search.
    pub fn base_dn(&self) -> (base: &str)
        ensures
            base@ == self@.base_dn,
    {
        self.base_dn.as_str()
    }

    /// The organizational unit of the users.
    pub fn users_ou(&self) -> (unit: &str)
        ensures
            unit@ == self@.users_ou,
    {
        self.users_ou.as_str()
    }
}

} // verus!
