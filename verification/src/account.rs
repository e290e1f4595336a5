//! Minecraft accounts: offline identities, the refresh decisions of Microsoft
//! accounts, and the identity a launch runs under.
use vstd::prelude::*;
use vstd::utf8::encode_utf8;

verus! {

/// A value that stops being valid at a UNIX time.
#[derive(Debug)]
pub struct Expiring<T> {
    /// Seconds since the UNIX epoch.
    pub expires_at: u64,
    pub data: T,
}

impl<T> Expiring<T> {
    /// Whether the value has expired at UNIX time `now`.
    pub fn is_expired_at(&self, now: u64) -> (r: bool)
        ensures
            r == (self.expires_at < now),
    {
        self.expires_at < now
    }
}

/// The Microsoft OAuth token of an account.
#[derive(Debug)]
pub struct MicrosoftToken {
    pub token_type: String,
    pub expires_in: u64,
    pub scope: String,
    pub access_token: String,
    pub refresh_token: String,
    pub user_id: String,
}

/// The Xbox Live token of an account.
#[derive(Debug)]
pub struct XboxLiveToken {
    pub token: String,
    pub user_hash: String,
}

/// The Minecraft services token of an account.
#[derive(Debug)]
pub struct MinecraftToken {
    pub username: String,
    pub roles: Vec<String>,
    pub access_token: String,
    pub token_type: String,
    pub expires_in: u64,
}

/// The game profile of an account; skins and capes are kept as JSON texts.
#[derive(Debug)]
pub struct Profile {
    pub id: [u8; 16],
    pub name: String,
    pub skins: Vec<String>,
    pub capes: Vec<String>,
}

/// Microsoft credentials of an account of the earlier format.
#[derive(Clone, Debug)]
pub struct MsAuth {
    pub expires_in: i64,
    pub access_token: String,
    pub refresh_token: String,
    pub expires_after: i64,
}

impl Default for MsAuth {
    fn default() -> (r: Self)
        ensures
            r.expires_in == 0,
            r.access_token@ == Seq::<char>::empty(),
            r.refresh_token@ == Seq::<char>::empty(),
            r.expires_after == 0,
    {
        MsAuth { expires_in: 0, access_token: String::new(), refresh_token: String::new(), expires_after: 0 }
    }
}

impl PartialEq for MsAuth {
    fn eq(&self, other: &Self) -> (r: bool) {
        self.expires_in == other.expires_in && self.access_token == other.access_token
            && self.refresh_token == other.refresh_token && self.expires_after == other.expires_after
    }
}

impl vstd::std_specs::cmp::PartialEqSpecImpl for MsAuth {
    open spec fn obeys_eq_spec() -> bool {
        true
    }

    open spec fn eq_spec(&self, other: &Self) -> bool {
        self.expires_in == other.expires_in && self.access_token@ == other.access_token@
            && self.refresh_token@ == other.refresh_token@ && self.expires_after == other.expires_after
    }
}

impl MsAuth {
    /// A copy of these credentials.
    pub fn duplicate(&self) -> (r: Self)
        ensures
            r.expires_in == self.expires_in,
            r.access_token@ == self.access_token@,
            r.refresh_token@ == self.refresh_token@,
            r.expires_after == self.expires_after,
    {
        MsAuth {
            expires_in: self.expires_in,
            access_token: self.access_token.clone(),
            refresh_token: self.refresh_token.clone(),
            expires_after: self.expires_after,
        }
    }
}

/// A signed-in or offline Minecraft account.
#[derive(Debug)]
pub enum MinecraftAccount {
    /// A Microsoft account with its token chain and profile.
    MsaAccount {
        msa: Expiring<MicrosoftToken>,
        xbl: Expiring<XboxLiveToken>,
        mca: Expiring<MinecraftToken>,
        profile: Profile,
    },
    /// A Microsoft account stored in the earlier format.
    LegacyMsaAccount { name: String, uuid: [u8; 16], token: String, ms_auth: MsAuth },
    /// An offline account: a name and the UUID derived from it.
    OfflineAccount { name: String, id: [u8; 16] },
}

/// What MD5 gives for `data`.
pub uninterp spec fn md5_of(data: Seq<u8>) -> [u8; 16];

/// Calls `md5::compute`: the MD5 digest of `data`, named by `md5_of`.
#[verifier::external_body]
fn md5_digest(data: &[u8]) -> (r: [u8; 16])
    ensures
        r == md5_of(data@),
{
    md5::compute(data).0
}

/// The text whose MD5 digest gives the offline UUID of `username`.
pub open spec fn offline_name(username: Seq<char>) -> Seq<char> {
    "OfflinePlayer:"@ + username
}

/// A digest marked as a version 3 (name-based) UUID of the RFC 4122 variant:
/// the high nibble of byte 6 becomes 3 and the two high bits of byte 8 become `10`.
pub open spec fn marked_offline_uuid(h: Seq<u8>) -> Seq<u8> {
    h.update(6, (h[6] & 0x0f) | 0x30).update(8, (h[8] & 0x3f) | 0x80)
}

/// The offline UUID of `username`: the MD5 digest of the UTF-8 bytes of
/// `offline_name(username)`, marked as a version 3 UUID.
pub open spec fn offline_uuid(username: Seq<char>) -> Seq<u8> {
    marked_offline_uuid(md5_of(encode_utf8(offline_name(username)))@)
}

/// The offline UUID made from the MD5 digest `digest` of the offline name.
pub fn offline_uuid_from_digest(digest: [u8; 16]) -> (r: [u8; 16])
    ensures
        r@ == marked_offline_uuid(digest@),
{
    let mut id = digest;
    let b6: u8 = id[6];
    let b8: u8 = id[8];
    id[6] = (b6 & 0x0f) | 0x30;
    id[8] = (b8 & 0x3f) | 0x80;
    assert(id@ =~= marked_offline_uuid(digest@));
    id
}

/// Every offline UUID is a version 3 (name-based, MD5) UUID of the RFC 4122
/// variant: the high nibble of byte 6 is 3 and the two high bits of byte 8 are `10`.
pub proof fn law_offline_uuid_version(username: Seq<char>)
    ensures
        offline_uuid(username).len() == 16,
        offline_uuid(username)[6] & 0xf0 == 0x30,
        offline_uuid(username)[8] & 0xc0 == 0x80,
{
    let h = md5_of(encode_utf8(offline_name(username)))@;
    assert(h.len() == 16);
    let a: u8 = h[6];
    let b: u8 = h[8];
    assert(((a & 0x0f) | 0x30) & 0xf0 == 0x30) by (bit_vector);
    assert(((b & 0x3f) | 0x80) & 0xc0 == 0x80) by (bit_vector);
}

impl MinecraftAccount {
    /// An offline account named `username`, with the UUID that the game derives from the name.
    pub fn auth_offline(username: String) -> (r: MinecraftAccount)
        ensures
            r matches MinecraftAccount::OfflineAccount { name, id } && name@ == username@ && id@
                == offline_uuid(username@),
    {
        let name_str = String::from_str("OfflinePlayer:").concat(username.as_str());
        let bytes = name_str.as_str().as_bytes();
        let id = offline_uuid_from_digest(md5_digest(bytes));
        MinecraftAccount::OfflineAccount { name: username, id }
    }

    /// The name the account plays under.
    pub fn get_username(&self) -> (r: &str)
        ensures
            r@ == match self {
                MinecraftAccount::MsaAccount { profile, .. } => profile.name@,
                MinecraftAccount::LegacyMsaAccount { name, .. } => name@,
                MinecraftAccount::OfflineAccount { name, .. } => name@,
            },
    {
        match self {
            MinecraftAccount::MsaAccount { profile, .. } => profile.name.as_str(),
            MinecraftAccount::LegacyMsaAccount { name, .. } => name.as_str(),
            MinecraftAccount::OfflineAccount { name, .. } => name.as_str(),
        }
    }

    /// Signing out keeps nothing to revoke: it always succeeds.
    pub fn logout(&self) -> (r: Result<(), String>)
        ensures
            r == Ok::<(), String>(()),
    {
        Ok(())
    }
}

/// The lowercase hexadecimal digit of `n` (below 16).
pub open spec fn hex_digit(n: int) -> char {
    seq!['0', '1', '2', '3', '4', '5', '6', '7', '8', '9', 'a', 'b', 'c', 'd', 'e', 'f'][n]
}

/// Two lowercase hexadecimal digits per byte, high nibble first.
pub open spec fn hex_of(bytes: Seq<u8>) -> Seq<char>
    decreases bytes.len(),
{
    if bytes.len() == 0 {
        Seq::empty()
    } else {
        hex_of(bytes.drop_last()) + seq![hex_digit(bytes.last() as int / 16), hex_digit(bytes.last() as int % 16)]
    }
}

/// The hyphenated form of a UUID: groups of 8, 4, 4, 4 and 12 lowercase hex digits.
pub open spec fn hyphenated(b: Seq<u8>) -> Seq<char> {
    hex_of(b.subrange(0, 4)) + seq!['-'] + hex_of(b.subrange(4, 6)) + seq!['-'] + hex_of(
        b.subrange(6, 8),
    ) + seq!['-'] + hex_of(b.subrange(8, 10)) + seq!['-'] + hex_of(b.subrange(10, 16))
}

/// Calls `uuid::Uuid::from_bytes` and its `to_string`, which writes the UUID in
/// hyphenated lowercase hex, as the uuid crate documents.
#[verifier::external_body]
pub(crate) fn uuid_text(bytes: [u8; 16]) -> (r: String)
    ensures
        r@ == hyphenated(bytes@),
{
    uuid::Uuid::from_bytes(bytes).to_string()
}

/// The identity a game launch runs under.
pub struct LaunchIdentity {
    pub player_name: String,
    pub uuid: String,
    pub access_token: String,
    pub user_type: String,
}

/// The identity of `account` as plain values: name, UUID text, access token, user type.
pub open spec fn launch_identity_of(account: MinecraftAccount) -> (Seq<char>, Seq<char>, Seq<char>, Seq<char>) {
    match account {
        MinecraftAccount::OfflineAccount { name, id } => (name@, hyphenated(id@), "-"@, "legacy"@),
        MinecraftAccount::MsaAccount { profile, mca, .. } => (
            profile.name@,
            hyphenated(profile.id@),
            mca.data.access_token@,
            "msa"@,
        ),
        MinecraftAccount::LegacyMsaAccount { name, uuid, token, .. } => (
            name@,
            hyphenated(uuid@),
            token@,
            "msa"@,
        ),
    }
}

/// A launch runs under the account's own player name and UUID: the profile's for a
/// current Microsoft account, the stored ones otherwise. Offline accounts, and only
/// they, play as "legacy" users, with the token "-"; Microsoft accounts as "msa"
/// users with their Minecraft token.
pub proof fn law_launch_identity(a: MinecraftAccount)
    ensures
        launch_identity_of(a).0 == match a {
            MinecraftAccount::MsaAccount { profile, .. } => profile.name@,
            MinecraftAccount::LegacyMsaAccount { name, .. } => name@,
            MinecraftAccount::OfflineAccount { name, .. } => name@,
        },
        launch_identity_of(a).1 == hyphenated(
            match a {
                MinecraftAccount::MsaAccount { profile, .. } => profile.id@,
                MinecraftAccount::LegacyMsaAccount { uuid, .. } => uuid@,
                MinecraftAccount::OfflineAccount { id, .. } => id@,
            },
        ),
        launch_identity_of(a).2 == match a {
            MinecraftAccount::MsaAccount { mca, .. } => mca.data.access_token@,
            MinecraftAccount::LegacyMsaAccount { token, .. } => token@,
            MinecraftAccount::OfflineAccount { .. } => "-"@,
        },
        (launch_identity_of(a).3 == "legacy"@) <==> a is OfflineAccount,
        !(a is OfflineAccount) ==> launch_identity_of(a).3 == "msa"@,
{
    reveal_strlit("legacy");
    reveal_strlit("msa");
    assert("msa"@.len() != "legacy"@.len());
    assert("msa"@ != "legacy"@);
}

impl LaunchIdentity {
    /// The identity a launch with `account` runs under: offline accounts play as
    /// "legacy" users with the token "-"; Microsoft accounts as "msa" users with
    /// their Minecraft token.
    pub fn of_account(account: &MinecraftAccount) -> (r: LaunchIdentity)
        ensures
            (r.player_name@, r.uuid@, r.access_token@, r.user_type@) == launch_identity_of(*account),
    {
        match account {
            MinecraftAccount::OfflineAccount { name, id } => LaunchIdentity {
                player_name: name.clone(),
                uuid: uuid_text(*id),
                access_token: String::from_str("-"),
                user_type: String::from_str("legacy"),
            },
            MinecraftAccount::MsaAccount { profile, mca, .. } => LaunchIdentity {
                player_name: profile.name.clone(),
                uuid: uuid_text(profile.id),
                access_token: mca.data.access_token.clone(),
                user_type: String::from_str("msa"),
            },
            MinecraftAccount::LegacyMsaAccount { name, uuid, token, .. } => LaunchIdentity {
                player_name: name.clone(),
                uuid: uuid_text(*uuid),
                access_token: token.clone(),
                user_type: String::from_str("msa"),
            },
        }
    }
}

/// What refreshing an account takes.
pub enum RefreshStep {
    /// The account stays as it is.
    Keep,
    /// Sign in to Minecraft again with the stored Microsoft token.
    LoginWithStoredToken,
    /// Get a new Microsoft token with `refresh_token`, then sign in to Minecraft;
    /// where `fall_back` holds and the refresh fails, sign in with the stored token.
    RefreshThenLogin { refresh_token: String, fall_back: bool },
}

/// A refresh step as plain values.
pub enum RefreshView {
    Keep,
    LoginWithStoredToken,
    RefreshThenLogin { refresh_token: Seq<char>, fall_back: bool },
}

impl View for RefreshStep {
    type V = RefreshView;

    open spec fn view(&self) -> RefreshView {
        match self {
            RefreshStep::Keep => RefreshView::Keep,
            RefreshStep::LoginWithStoredToken => RefreshView::LoginWithStoredToken,
            RefreshStep::RefreshThenLogin { refresh_token, fall_back } => RefreshView::RefreshThenLogin {
                refresh_token: refresh_token@,
                fall_back: *fall_back,
            },
        }
    }
}

/// The refresh of `account` at UNIX time `now`.
pub open spec fn refresh_step_of(account: MinecraftAccount, now: u64) -> RefreshView {
    match account {
        MinecraftAccount::MsaAccount { msa, mca, .. } => if !(mca.expires_at < now) {
            RefreshView::Keep
        } else if msa.expires_at < now {
            RefreshView::RefreshThenLogin { refresh_token: msa.data.refresh_token@, fall_back: true }
        } else {
            RefreshView::LoginWithStoredToken
        },
        MinecraftAccount::LegacyMsaAccount { ms_auth, .. } => RefreshView::RefreshThenLogin {
            refresh_token: ms_auth.refresh_token@,
            fall_back: false,
        },
        MinecraftAccount::OfflineAccount { .. } => RefreshView::Keep,
    }
}

impl MinecraftAccount {
    /// What refreshing the account at UNIX time `now` takes: a Microsoft account
    /// whose Minecraft token is still valid is kept; otherwise it signs in again,
    /// after refreshing its Microsoft token if that has expired too. An account of
    /// the earlier format always refreshes its token; an offline account is kept.
    pub fn refresh_step(&self, now: u64) -> (r: RefreshStep)
        ensures
            r@ == refresh_step_of(*self, now),
    {
        match self {
            MinecraftAccount::MsaAccount { msa, mca, .. } => {
                if !mca.is_expired_at(now) {
                    RefreshStep::Keep
                } else if msa.is_expired_at(now) {
                    RefreshStep::RefreshThenLogin { refresh_token: msa.data.refresh_token.clone(), fall_back: true }
                } else {
                    RefreshStep::LoginWithStoredToken
                }
            },
            MinecraftAccount::LegacyMsaAccount { ms_auth, .. } => RefreshStep::RefreshThenLogin {
                refresh_token: ms_auth.refresh_token.clone(),
                fall_back: false,
            },
            MinecraftAccount::OfflineAccount { .. } => RefreshStep::Keep,
        }
    }
}

/// What signing in to Minecraft with a Microsoft token returns.
#[derive(Debug)]
pub struct SignIn {
    pub xbl: Expiring<XboxLiveToken>,
    pub mca: Expiring<MinecraftToken>,
    pub profile: Profile,
}

/// The Microsoft token a refresh of `account` signs in with, given the outcome of
/// the token refresh (`None` when none was attempted). A current Microsoft account
/// uses the new token when the refresh succeeded and its stored token otherwise;
/// an account of the earlier format needs the new token, and a failed refresh is
/// the error.
pub open spec fn sign_in_token_of(
    account: MinecraftAccount,
    refreshed: Option<Result<Expiring<MicrosoftToken>, String>>,
) -> Result<Expiring<MicrosoftToken>, String> {
    match account {
        MinecraftAccount::MsaAccount { msa, .. } => match refreshed {
            Some(Ok(n)) => Ok(n),
            _ => Ok(msa),
        },
        _ => refreshed->Some_0,
    }
}

/// The account after signing in with `msa`: a current Microsoft account holding
/// `msa` and the sign-in's tokens and profile; a failed sign-in is the error.
pub open spec fn signed_in_of(msa: Expiring<MicrosoftToken>, sign_in: Result<SignIn, String>) -> Result<
    MinecraftAccount,
    String,
> {
    match sign_in {
        Ok(s) => Ok(MinecraftAccount::MsaAccount { msa, xbl: s.xbl, mca: s.mca, profile: s.profile }),
        Err(e) => Err(e),
    }
}

/// The result of refreshing `account` at UNIX time `now`, given the outcome of the
/// token refresh and of the sign-in, where the refresh step takes them.
pub open spec fn refresh_outcome(
    account: MinecraftAccount,
    now: u64,
    refreshed: Option<Result<Expiring<MicrosoftToken>, String>>,
    sign_in: Result<SignIn, String>,
) -> Result<MinecraftAccount, String> {
    match refresh_step_of(account, now) {
        RefreshView::Keep => Ok(account),
        _ => match sign_in_token_of(account, refreshed) {
            Ok(t) => signed_in_of(t, sign_in),
            Err(e) => Err(e),
        },
    }
}

impl MinecraftAccount {
    /// The Microsoft token to sign in with, given the outcome of the token refresh
    /// (`None` when none was attempted); see `sign_in_token_of`.
    pub fn sign_in_token(self, refreshed: Option<Result<Expiring<MicrosoftToken>, String>>) -> (r: Result<
        Expiring<MicrosoftToken>,
        String,
    >)
        requires
            !(self is OfflineAccount),
            self is LegacyMsaAccount ==> refreshed is Some,
        ensures
            r == sign_in_token_of(self, refreshed),
    {
        match self {
            MinecraftAccount::MsaAccount { msa, .. } => match refreshed {
                Some(Ok(n)) => Ok(n),
                _ => Ok(msa),
            },
            _ => match refreshed {
                Some(r) => r,
                None => Err(String::new()),
            },
        }
    }

    /// The account after signing in with `msa`; see `signed_in_of`.
    pub fn signed_in(msa: Expiring<MicrosoftToken>, sign_in: Result<SignIn, String>) -> (r: Result<
        MinecraftAccount,
        String,
    >)
        ensures
            r == signed_in_of(msa, sign_in),
    {
        match sign_in {
            Ok(s) => Ok(MinecraftAccount::MsaAccount { msa, xbl: s.xbl, mca: s.mca, profile: s.profile }),
            Err(e) => Err(e),
        }
    }
}

/// Refreshing keeps offline accounts offline and makes accounts of the earlier
/// format current Microsoft accounts; for those, a failed token refresh is the
/// result. For a current Microsoft account whose tokens have both expired, a
/// failed token refresh falls back to signing in with the stored token.
pub proof fn law_refresh_outcome(
    account: MinecraftAccount,
    now: u64,
    refreshed: Option<Result<Expiring<MicrosoftToken>, String>>,
    sign_in: Result<SignIn, String>,
)
    ensures
        refresh_outcome(account, now, refreshed, sign_in) matches Ok(a) ==> ((a is OfflineAccount
            <==> account is OfflineAccount) && (account is LegacyMsaAccount ==> a is MsaAccount)),
        account is OfflineAccount ==> refresh_outcome(account, now, refreshed, sign_in) == Ok::<
            MinecraftAccount,
            String,
        >(account),
        (account is LegacyMsaAccount && refreshed matches Some(Err(e))) ==> refresh_outcome(
            account,
            now,
            refreshed,
            sign_in,
        ) == Err::<MinecraftAccount, String>(refreshed->Some_0->Err_0),
        (account matches MinecraftAccount::MsaAccount { msa, mca, .. } && mca.expires_at < now
            && refreshed matches Some(Err(_))) ==> refresh_outcome(account, now, refreshed, sign_in)
            == signed_in_of(account->msa, sign_in),
{
}

} // verus!
