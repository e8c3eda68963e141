//! The persisted application configuration: a handful of named settings
//! and the per-profile account records, keyed by browser id. The manager
//! owns the in-memory state and its exact update semantics; reading and
//! writing the backing JSON file happens outside and hands whole
//! configurations in and out.

use vstd::prelude::*;
use vstd::std_specs::vec::vec_index;
use vstd::string::*;

use crate::text::{join_path, str_eq};

verus! {

/// The displayable identity of one account.
#[derive(Debug)]
pub struct AccountInfo {
    pub nickname: String,
    pub avatar: String,
    pub wechat_id: Option<String>,
    pub finder_username: Option<String>,
    pub appuin: Option<String>,
}

/// What is persisted per browser profile: the stable identity data and a
/// few optional bookkeeping fields.
#[derive(Debug)]
pub struct AccountData {
    pub account_info: AccountInfo,
    pub updated_at: String,
    pub login_method: Option<String>,
    pub login_time: Option<i64>,
    pub link_token: Option<String>,
    pub last_sync_time: Option<i64>,
}

/// The whole persisted configuration.
#[derive(Debug)]
pub struct AppConfig {
    pub bitbrowser_path: Option<String>,
    pub bitbrowser_api: Option<String>,
    pub username: Option<String>,
    pub filter_my_accounts: Option<bool>,
    pub member_mode: Option<bool>,
    pub test_persistence_mode: Option<bool>,
    pub bitbrowser_vip_mode: Option<bool>,
    pub browser_accounts: Vec<(String, AccountData)>,
}

/// An exact copy of an optional string.
fn clone_opt_string(o: &Option<String>) -> (r: Option<String>)
    ensures
        r == *o,
{
    match o {
        Some(s) => Some(s.clone()),
        None => None,
    }
}

impl Clone for AccountInfo {
    /// An exact copy.
    fn clone(&self) -> (r: Self)
        ensures
            r == *self,
    {
        AccountInfo {
            nickname: self.nickname.clone(),
            avatar: self.avatar.clone(),
            wechat_id: clone_opt_string(&self.wechat_id),
            finder_username: clone_opt_string(&self.finder_username),
            appuin: clone_opt_string(&self.appuin),
        }
    }
}

impl Clone for AccountData {
    /// An exact copy.
    fn clone(&self) -> (r: Self)
        ensures
            r == *self,
    {
        AccountData {
            account_info: self.account_info.clone(),
            updated_at: self.updated_at.clone(),
            login_method: clone_opt_string(&self.login_method),
            login_time: self.login_time,
            link_token: clone_opt_string(&self.link_token),
            last_sync_time: self.last_sync_time,
        }
    }
}

impl Default for AppConfig {
    /// The configuration before anything was ever set.
    fn default() -> (r: Self)
        ensures
            r.bitbrowser_path is None,
            r.bitbrowser_api is None,
            r.username is None,
            r.filter_my_accounts is None,
            r.member_mode is None,
            r.test_persistence_mode is None,
            r.bitbrowser_vip_mode is None,
            r.browser_accounts@ =~= Seq::<(String, AccountData)>::empty(),
    {
        AppConfig {
            bitbrowser_path: None,
            bitbrowser_api: None,
            username: None,
            filter_my_accounts: None,
            member_mode: None,
            test_persistence_mode: None,
            bitbrowser_vip_mode: None,
            browser_accounts: Vec::new(),
        }
    }
}

/// The account stored under `id`: the first entry with that key.
pub open spec fn spec_find_account(accounts: Seq<(String, AccountData)>, id: Seq<char>) -> Option<
    AccountData,
>
    decreases accounts.len(),
{
    if accounts.len() == 0 {
        None
    } else if accounts[0].0@ == id {
        Some(accounts[0].1)
    } else {
        spec_find_account(accounts.drop_first(), id)
    }
}

/// `accounts` with every entry keyed `id` removed.
pub open spec fn spec_remove_account(accounts: Seq<(String, AccountData)>, id: Seq<char>) -> Seq<
    (String, AccountData),
>
    decreases accounts.len(),
{
    if accounts.len() == 0 {
        accounts
    } else if accounts[0].0@ == id {
        spec_remove_account(accounts.drop_first(), id)
    } else {
        seq![accounts[0]] + spec_remove_account(accounts.drop_first(), id)
    }
}

/// `accounts` with the entries keyed by each of `ids` removed, in order.
pub open spec fn spec_remove_accounts(
    accounts: Seq<(String, AccountData)>,
    ids: Seq<Seq<char>>,
) -> Seq<(String, AccountData)>
    decreases ids.len(),
{
    if ids.len() == 0 {
        accounts
    } else {
        spec_remove_accounts(spec_remove_account(accounts, ids[0]), ids.drop_first())
    }
}

/// Storing under `id` removes what the key held and appends the new
/// entry: the upsert the account store performs.
pub open spec fn spec_store_account(
    accounts: Seq<(String, AccountData)>,
    id: String,
    data: AccountData,
) -> Seq<(String, AccountData)> {
    spec_remove_account(accounts, id@) + seq![(id, data)]
}

/// After removal, no entry keyed `id` remains; other entries survive.
pub proof fn lemma_remove_account_removes(accounts: Seq<(String, AccountData)>, id: Seq<char>)
    ensures
        forall|j: int|
            0 <= j < spec_remove_account(accounts, id).len() ==> #[trigger] spec_remove_account(
                accounts,
                id,
            )[j].0@ != id,
    decreases accounts.len(),
{
    if accounts.len() > 0 {
        lemma_remove_account_removes(accounts.drop_first(), id);
        let rest = spec_remove_account(accounts.drop_first(), id);
        assert forall|j: int|
            0 <= j < spec_remove_account(accounts, id).len() implies #[trigger] spec_remove_account(
            accounts,
            id,
        )[j].0@ != id by {
            if accounts[0].0@ == id {
                assert(spec_remove_account(accounts, id)[j] == rest[j]);
            } else if j == 0 {
                assert(spec_remove_account(accounts, id)[0] == accounts[0]);
            } else {
                assert(spec_remove_account(accounts, id)[j] == rest[j - 1]);
            }
        }
    }
}

/// Looking up what was just stored finds exactly the stored data: the
/// account store's round trip.
pub proof fn lemma_store_then_find(
    accounts: Seq<(String, AccountData)>,
    id: String,
    data: AccountData,
)
    ensures
        spec_find_account(spec_store_account(accounts, id, data), id@) == Some(data),
{
    lemma_remove_account_removes(accounts, id@);
    lemma_find_skips_other_keys(spec_remove_account(accounts, id@), seq![(id, data)], id@);
}

/// Finding a key whose entries all sit in the appended tail skips the
/// prefix entirely.
proof fn lemma_find_skips_other_keys(
    prefix: Seq<(String, AccountData)>,
    tail: Seq<(String, AccountData)>,
    id: Seq<char>,
)
    requires
        forall|j: int| 0 <= j < prefix.len() ==> #[trigger] prefix[j].0@ != id,
    ensures
        spec_find_account(prefix + tail, id) == spec_find_account(tail, id),
    decreases prefix.len(),
{
    if prefix.len() == 0 {
        assert(prefix + tail =~= tail);
    } else {
        assert((prefix + tail).drop_first() =~= prefix.drop_first() + tail);
        lemma_find_skips_other_keys(prefix.drop_first(), tail, id);
    }
}

/// The configuration manager: the in-memory configuration and its exact
/// update rules.
#[derive(Debug)]
pub struct ConfigManager {
    pub config: AppConfig,
}

impl ConfigManager {
    /// A manager over the configuration before anything was set. The
    /// persisted configuration, where one exists, comes in through
    /// `from_config`.
    pub fn new() -> (r: ConfigManager)
        ensures
            r.config.bitbrowser_path is None,
            r.config.bitbrowser_api is None,
            r.config.username is None,
            r.config.filter_my_accounts is None,
            r.config.member_mode is None,
            r.config.test_persistence_mode is None,
            r.config.bitbrowser_vip_mode is None,
            r.config.browser_accounts@ =~= Seq::<(String, AccountData)>::empty(),
    {
        ConfigManager { config: AppConfig::default() }
    }

    /// A manager over a configuration loaded elsewhere.
    pub fn from_config(config: AppConfig) -> (r: ConfigManager)
        ensures
            r.config == config,
    {
        ConfigManager { config }
    }

    /// The string setting stored under `key`, for the three string keys;
    /// nothing for any other key.
    pub fn get_string(&self, key: &str) -> (r: Option<String>)
        ensures
            key@ == "bitbrowser_path"@ ==> r == self.config.bitbrowser_path,
            key@ == "bitbrowser_api"@ ==> r == self.config.bitbrowser_api,
            key@ == "username"@ ==> r == self.config.username,
            key@ != "bitbrowser_path"@ && key@ != "bitbrowser_api"@ && key@ != "username"@
                ==> r is None,
    {
        proof {
            reveal_strlit("bitbrowser_path");
            reveal_strlit("bitbrowser_api");
            reveal_strlit("username");
            assert("bitbrowser_path"@.len() == 15);
            assert("bitbrowser_api"@.len() == 14);
            assert("username"@.len() == 8);
        }
        if str_eq(key, "bitbrowser_path") {
            clone_opt_string(&self.config.bitbrowser_path)
        } else if str_eq(key, "bitbrowser_api") {
            clone_opt_string(&self.config.bitbrowser_api)
        } else if str_eq(key, "username") {
            clone_opt_string(&self.config.username)
        } else {
            None
        }
    }

    /// Set the string setting under `key`. An unknown key changes nothing
    /// and is reported; persisting the changed configuration is the
    /// caller's step.
    pub fn set_string(&mut self, key: &str, value: String) -> (r: Result<(), String>)
        ensures
            key@ == "bitbrowser_path"@ ==> r is Ok && final (self).config == (AppConfig {
                bitbrowser_path: Some(value),
                ..old(self).config
            }),
            key@ == "bitbrowser_api"@ ==> r is Ok && final (self).config == (AppConfig {
                bitbrowser_api: Some(value),
                ..old(self).config
            }),
            key@ == "username"@ ==> r is Ok && final (self).config == (AppConfig {
                username: Some(value),
                ..old(self).config
            }),
            key@ != "bitbrowser_path"@ && key@ != "bitbrowser_api"@ && key@ != "username"@ ==> {
                &&& final (self).config == old(self).config
                &&& r matches Err(m) && m@ == "unknown configuration key: "@ + key@
            },
    {
        proof {
            reveal_strlit("bitbrowser_path");
            reveal_strlit("bitbrowser_api");
            reveal_strlit("username");
            assert("bitbrowser_path"@.len() == 15);
            assert("bitbrowser_api"@.len() == 14);
            assert("username"@.len() == 8);
        }
        if str_eq(key, "bitbrowser_path") {
            self.config.bitbrowser_path = Some(value);
            Ok(())
        } else if str_eq(key, "bitbrowser_api") {
            self.config.bitbrowser_api = Some(value);
            Ok(())
        } else if str_eq(key, "username") {
            self.config.username = Some(value);
            Ok(())
        } else {
            let mut m = String::from_str("unknown configuration key: ");
            m.append(key);
            Err(m)
        }
    }

    /// The boolean setting stored under `key`, for the four boolean keys;
    /// nothing for any other key.
    pub fn get_bool(&self, key: &str) -> (r: Option<bool>)
        ensures
            key@ == "filter_my_accounts"@ ==> r == self.config.filter_my_accounts,
            key@ == "member_mode"@ ==> r == self.config.member_mode,
            key@ == "test_persistence_mode"@ ==> r == self.config.test_persistence_mode,
            key@ == "bitbrowser_vip_mode"@ ==> r == self.config.bitbrowser_vip_mode,
            key@ != "filter_my_accounts"@ && key@ != "member_mode"@ && key@
                != "test_persistence_mode"@ && key@ != "bitbrowser_vip_mode"@ ==> r is None,
    {
        proof {
            reveal_strlit("filter_my_accounts");
            reveal_strlit("member_mode");
            reveal_strlit("test_persistence_mode");
            reveal_strlit("bitbrowser_vip_mode");
            assert("filter_my_accounts"@.len() == 18);
            assert("member_mode"@.len() == 11);
            assert("test_persistence_mode"@.len() == 21);
            assert("bitbrowser_vip_mode"@.len() == 19);
        }
        if str_eq(key, "filter_my_accounts") {
            self.config.filter_my_accounts
        } else if str_eq(key, "member_mode") {
            self.config.member_mode
        } else if str_eq(key, "test_persistence_mode") {
            self.config.test_persistence_mode
        } else if str_eq(key, "bitbrowser_vip_mode") {
            self.config.bitbrowser_vip_mode
        } else {
            None
        }
    }

    /// Set the boolean setting under `key`. An unknown key changes nothing
    /// and is reported.
    pub fn set_bool(&mut self, key: &str, value: bool) -> (r: Result<(), String>)
        ensures
            key@ == "filter_my_accounts"@ ==> r is Ok && final (self).config == (AppConfig {
                filter_my_accounts: Some(value),
                ..old(self).config
            }),
            key@ == "member_mode"@ ==> r is Ok && final (self).config == (AppConfig {
                member_mode: Some(value),
                ..old(self).config
            }),
            key@ == "test_persistence_mode"@ ==> r is Ok && final (self).config == (AppConfig {
                test_persistence_mode: Some(value),
                ..old(self).config
            }),
            key@ == "bitbrowser_vip_mode"@ ==> r is Ok && final (self).config == (AppConfig {
                bitbrowser_vip_mode: Some(value),
                ..old(self).config
            }),
            key@ != "filter_my_accounts"@ && key@ != "member_mode"@ && key@
                != "test_persistence_mode"@ && key@ != "bitbrowser_vip_mode"@ ==> {
                &&& final (self).config == old(self).config
                &&& r matches Err(m) && m@ == "unknown configuration key: "@ + key@
            },

    {
        proof {
            reveal_strlit("filter_my_accounts");
            reveal_strlit("member_mode");
            reveal_strlit("test_persistence_mode");
            reveal_strlit("bitbrowser_vip_mode");
            assert("filter_my_accounts"@.len() == 18);
            assert("member_mode"@.len() == 11);
            assert("test_persistence_mode"@.len() == 21);
            assert("bitbrowser_vip_mode"@.len() == 19);
        }
        if str_eq(key, "filter_my_accounts") {
            self.config.filter_my_accounts = Some(value);
            Ok(())
        } else if str_eq(key, "member_mode") {
            self.config.member_mode = Some(value);
            Ok(())
        } else if str_eq(key, "test_persistence_mode") {
            self.config.test_persistence_mode = Some(value);
            Ok(())
        } else if str_eq(key, "bitbrowser_vip_mode") {
            self.config.bitbrowser_vip_mode = Some(value);
            Ok(())
        } else {
            let mut m = String::from_str("unknown configuration key: ");
            m.append(key);
            Err(m)
        }
    }

    /// Every stored account, as key-data pairs in storage order.
    pub fn get_all_accounts(&self) -> (r: Vec<(String, AccountData)>)
        ensures
            r@ == self.config.browser_accounts@,
    {
        let accounts = &self.config.browser_accounts;
        let mut r: Vec<(String, AccountData)> = Vec::new();
        let mut i: usize = 0;
        while i < accounts.len()
            invariant
                i <= accounts@.len(),
                r@ == accounts@.take(i as int),
            decreases accounts@.len() - i,
        {
            let entry = vec_index(accounts, i);
            r.push((entry.0.clone(), entry.1.clone()));
            proof {
                assert(accounts@.take(i + 1) =~= accounts@.take(i as int).push(accounts@[i as int]));
            }
            i = i + 1;
        }
        proof {
            assert(accounts@.take(accounts@.len() as int) =~= accounts@);
        }
        r
    }

    /// The account stored under `browser_id`, if any.
    #[verifier::spinoff_prover]
    pub fn get_account(&self, browser_id: &str) -> (r: Option<AccountData>)
        ensures
            r == spec_find_account(self.config.browser_accounts@, browser_id@),
    {
        let accounts = &self.config.browser_accounts;
        proof {
            assert(accounts@.skip(0) =~= accounts@);
        }
        let mut i: usize = 0;
        while i < accounts.len()
            invariant
                accounts@ == self.config.browser_accounts@,
                i <= accounts@.len(),
                spec_find_account(accounts@, browser_id@) == spec_find_account(
                    accounts@.skip(i as int),
                    browser_id@,
                ),
            decreases accounts@.len() - i,
        {
            let entry = vec_index(accounts, i);
            if str_eq(entry.0.as_str(), browser_id) {
                proof {
                    assert(accounts@.skip(i as int)[0] == accounts@[i as int]);
                    assert(spec_find_account(accounts@.skip(i as int), browser_id@) == Some(
                        accounts@[i as int].1,
                    ));
                    assert(spec_find_account(accounts@, browser_id@) == Some(
                        accounts@[i as int].1,
                    ));
                }
                return Some(entry.1.clone());
            }
            proof {
                assert(accounts@.skip(i as int).drop_first() =~= accounts@.skip(i + 1));
            }
            i = i + 1;
        }
        proof {
            assert(accounts@.skip(accounts@.len() as int) =~= Seq::<(String, AccountData)>::empty());
        }
        None
    }

    /// Keep only the entries whose key is not `id`, preserving order.
    fn remove_account_entries(&mut self, id: &str)
        ensures
            final (self).config == (AppConfig {
                browser_accounts: final (self).config.browser_accounts,
                ..old(self).config
            }),
            final (self).config.browser_accounts@ == spec_remove_account(
                old(self).config.browser_accounts@,
                id@,
            ),
    {
        let accounts = &self.config.browser_accounts;
        let ghost orig = accounts@;
        proof {
            assert(orig.skip(0) =~= orig);
        }
        let mut kept: Vec<(String, AccountData)> = Vec::new();
        let mut i: usize = 0;
        while i < accounts.len()
            invariant
                accounts == &self.config.browser_accounts,
                orig == accounts@,
                i <= orig.len(),
                spec_remove_account(orig, id@) == kept@ + spec_remove_account(
                    orig.skip(i as int),
                    id@,
                ),
            decreases orig.len() - i,
        {
            let entry = vec_index(accounts, i);
            proof {
                assert(orig.skip(i as int)[0] == orig[i as int]);
                assert(orig.skip(i as int).drop_first() =~= orig.skip(i + 1));
            }
            if !str_eq(entry.0.as_str(), id) {
                kept.push((entry.0.clone(), entry.1.clone()));
                proof {
                    assert(kept@ + spec_remove_account(orig.skip(i + 1), id@) =~= kept@.drop_last()
                        + (seq![orig[i as int]] + spec_remove_account(orig.skip(i + 1), id@)));
                }
            }
            i = i + 1;
        }
        proof {
            assert(orig.skip(orig.len() as int) =~= Seq::<(String, AccountData)>::empty());
            assert(kept@ + spec_remove_account(orig.skip(orig.len() as int), id@) =~= kept@);
        }
        self.config.browser_accounts = kept;
    }

    /// Store `account_data` under `browser_id`, replacing whatever the key
    /// held. Persisting the changed configuration is the caller's step.
    pub fn save_account(&mut self, browser_id: String, account_data: AccountData) -> (r: Result<
        (),
        String,
    >)
        ensures
            r is Ok,
            final (self).config == (AppConfig {
                browser_accounts: final (self).config.browser_accounts,
                ..old(self).config
            }),
            final (self).config.browser_accounts@ == spec_store_account(
                old(self).config.browser_accounts@,
                browser_id,
                account_data,
            ),
    {
        self.remove_account_entries(browser_id.as_str());
        self.config.browser_accounts.push((browser_id, account_data));
        Ok(())
    }

    /// Remove the account stored under `browser_id`, if any.
    pub fn delete_account(&mut self, browser_id: &str) -> (r: Result<(), String>)
        ensures
            r is Ok,
            final (self).config == (AppConfig {
                browser_accounts: final (self).config.browser_accounts,
                ..old(self).config
            }),
            final (self).config.browser_accounts@ == spec_remove_account(
                old(self).config.browser_accounts@,
                browser_id@,
            ),
    {
        self.remove_account_entries(browser_id);
        Ok(())
    }

    /// Remove the accounts stored under each of `browser_ids`.
    pub fn delete_accounts(&mut self, browser_ids: Vec<String>) -> (r: Result<(), String>)
        ensures
            r is Ok,
            final (self).config == (AppConfig {
                browser_accounts: final (self).config.browser_accounts,
                ..old(self).config
            }),
            final (self).config.browser_accounts@ == spec_remove_accounts(
                old(self).config.browser_accounts@,
                browser_ids@.map_values(|s: String| s@),
            ),
    {
        let ghost ids = browser_ids@.map_values(|s: String| s@);
        let ghost orig_config = self.config;
        proof {
            assert(ids.skip(0) =~= ids);
        }
        let mut i: usize = 0;
        while i < browser_ids.len()
            invariant
                i <= browser_ids@.len(),
                ids == browser_ids@.map_values(|s: String| s@),
                self.config == (AppConfig {
                    browser_accounts: self.config.browser_accounts,
                    ..orig_config
                }),
                spec_remove_accounts(orig_config.browser_accounts@, ids)
                    == spec_remove_accounts(
                    self.config.browser_accounts@,
                    ids.skip(i as int),
                ),
            decreases browser_ids@.len() - i,
        {
            let id = vec_index(&browser_ids, i);
            proof {
                assert(ids.skip(i as int)[0] == ids[i as int]);
                assert(ids.skip(i as int).drop_first() =~= ids.skip(i + 1));
            }
            self.remove_account_entries(id.as_str());
            i = i + 1;
        }
        proof {
            assert(ids.skip(ids.len() as int) =~= Seq::<Seq<char>>::empty());
        }
        Ok(())
    }
}

/// The file the configuration is persisted in, under the local
/// application-data directory.
pub fn config_file_path(data_dir: &str) -> (r: String)
    ensures
        r@ == data_dir@ + "\\"@ + "com.toolbox.dev"@ + "\\"@ + "settings.json"@,
{
    let d = join_path(data_dir, "com.toolbox.dev");
    let r = join_path(d.as_str(), "settings.json");
    proof {
        assert(r@ =~= data_dir@ + "\\"@ + "com.toolbox.dev"@ + "\\"@ + "settings.json"@);
    }
    r
}

} // verus!
