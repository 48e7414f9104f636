//! Launchable items, the actions behind them, and how each source of items
//! turns what was found on the machine into items.
pub mod apps;
pub mod folders;
pub mod pathbin;
pub mod registered;
pub mod shellfolders;
pub mod systools;

use vstd::prelude::*;
use crate::config::{config_dir, config_dir_of, Config, CustomCommand};
use crate::text::{concat, str_eq};

verus! {

/// What happens when an item is executed.
pub enum Action {
    /// ShellExecute a path (.lnk, .exe, folder, URL...)
    Open(String),
    Exec { cmd: String, args: Option<String> },
    Url(String),
    /// Index into the Lua host's current callback list
    Lua(usize),
    OpenConfig,
    Quit,
    Reload,
    RegisterStartup,
    UnregisterStartup,
}

/// What an action is, with strings taken by their characters.
pub enum ActionView {
    Open(Seq<char>),
    Exec { cmd: Seq<char>, args: Option<Seq<char>> },
    Url(Seq<char>),
    Lua(usize),
    OpenConfig,
    Quit,
    Reload,
    RegisterStartup,
    UnregisterStartup,
}

/// The characters of an optional string.
pub open spec fn opt_view(s: Option<String>) -> Option<Seq<char>> {
    match s {
        Some(v) => Some(v@),
        None => None,
    }
}

impl View for Action {
    type V = ActionView;

    open spec fn view(&self) -> ActionView {
        match *self {
            Action::Open(p) => ActionView::Open(p@),
            Action::Exec { cmd, args } => ActionView::Exec { cmd: cmd@, args: opt_view(args) },
            Action::Url(u) => ActionView::Url(u@),
            Action::Lua(i) => ActionView::Lua(i),
            Action::OpenConfig => ActionView::OpenConfig,
            Action::Quit => ActionView::Quit,
            Action::Reload => ActionView::Reload,
            Action::RegisterStartup => ActionView::RegisterStartup,
            Action::UnregisterStartup => ActionView::UnregisterStartup,
        }
    }
}

/// A copy of an optional string with the same contents.
pub fn clone_opt_string(s: &Option<String>) -> (r: Option<String>)
    ensures
        r == *s,
{
    match s {
        Some(v) => Some(v.clone()),
        None => None,
    }
}

impl Clone for Action {
    fn clone(&self) -> (r: Self)
        ensures
            r == *self,
    {
        match self {
            Action::Open(p) => Action::Open(p.clone()),
            Action::Exec { cmd, args } => Action::Exec { cmd: cmd.clone(), args: clone_opt_string(args) },
            Action::Url(u) => Action::Url(u.clone()),
            Action::Lua(i) => Action::Lua(*i),
            Action::OpenConfig => Action::OpenConfig,
            Action::Quit => Action::Quit,
            Action::Reload => Action::Reload,
            Action::RegisterStartup => Action::RegisterStartup,
            Action::UnregisterStartup => Action::UnregisterStartup,
        }
    }
}

/// One search result candidate.
pub struct Item {
    pub title: String,
    pub subtitle: String,
    /// Text used for fuzzy matching (usually the title, plus aliases)
    pub key: String,
    pub action: Action,
    /// Extra ranking score added on top of the fuzzy-match score.
    pub rank_boost: u32,
    /// File whose shell icon is shown for the item, when it differs from the target.
    pub icon_path: Option<String>,
}

/// What an item is, with strings taken by their characters.
pub struct ItemView {
    pub title: Seq<char>,
    pub subtitle: Seq<char>,
    pub key: Seq<char>,
    pub action: ActionView,
    pub rank_boost: u32,
    pub icon_path: Option<Seq<char>>,
}

impl View for Item {
    type V = ItemView;

    open spec fn view(&self) -> ItemView {
        ItemView {
            title: self.title@,
            subtitle: self.subtitle@,
            key: self.key@,
            action: self.action@,
            rank_boost: self.rank_boost,
            icon_path: opt_view(self.icon_path),
        }
    }
}

/// An item as `Item::new` makes it.
pub open spec fn plain_item(title: Seq<char>, subtitle: Seq<char>, action: ActionView) -> ItemView {
    ItemView { title, subtitle, key: title, action, rank_boost: 0, icon_path: None }
}

/// The views of a list of items.
pub open spec fn views(items: Seq<Item>) -> Seq<ItemView> {
    items.map_values(|it: Item| it@)
}

impl Clone for Item {
    fn clone(&self) -> (r: Self)
        ensures
            r == *self,
    {
        Item {
            title: self.title.clone(),
            subtitle: self.subtitle.clone(),
            key: self.key.clone(),
            action: self.action.clone(),
            rank_boost: self.rank_boost,
            icon_path: clone_opt_string(&self.icon_path),
        }
    }
}

impl Item {
    /// An item matched by its title, with no boost and no separate icon.
    pub fn new(title: String, subtitle: String, action: Action) -> (r: Self)
        ensures
            r@ == plain_item(title@, subtitle@, action@),
            r.subtitle == subtitle,
            r.action == action,
    {
        Item { key: title.clone(), title, subtitle, action, rank_boost: 0, icon_path: None }
    }
}

/// The item made from one command of config.toml.
pub open spec fn command_item(c: CustomCommand) -> ItemView {
    ItemView {
        title: c.name@,
        subtitle: match c.args {
            Some(a) => c.cmd@ + " "@ + a@,
            None => c.cmd@,
        },
        key: match c.keyword {
            Some(k) => c.name@ + " "@ + k@,
            None => c.name@,
        },
        action: ActionView::Exec { cmd: c.cmd@, args: opt_view(c.args) },
        rank_boost: 0,
        icon_path: None,
    }
}

/// Items that come from the config file (rebuilt on every show).
pub fn config_items(config: &Config) -> (r: Vec<Item>)
    ensures
        views(r@) == config.commands@.map_values(|c: CustomCommand| command_item(c)),
{
    let mut items: Vec<Item> = Vec::new();
    let mut i: usize = 0;
    while i < config.commands.len()
        invariant
            i <= config.commands@.len(),
            views(items@) == config.commands@.subrange(0, i as int).map_values(
                |c: CustomCommand| command_item(c),
            ),
        decreases config.commands@.len() - i,
    {
        let c = &config.commands[i];
        let subtitle = match &c.args {
            Some(a) => concat(concat(c.cmd.as_str(), " ").as_str(), a.as_str()),
            None => c.cmd.clone(),
        };
        let mut item = Item::new(
            c.name.clone(),
            subtitle,
            Action::Exec { cmd: c.cmd.clone(), args: clone_opt_string(&c.args) },
        );
        if let Some(kw) = &c.keyword {
            item.key = concat(concat(item.title.as_str(), " ").as_str(), kw.as_str());
        }
        let ghost before = items@;
        items.push(item);
        proof {
            assert(views(items@) =~= views(before).push(item@));
            assert(config.commands@.subrange(0, i + 1) =~= config.commands@.subrange(0, i as int).push(
                config.commands@[i as int],
            ));
        }
        i = i + 1;
    }
    proof {
        assert(config.commands@.subrange(0, config.commands@.len() as int) =~= config.commands@);
    }
    items
}

/// The built-in commands, for the configuration folder `cfg_dir`.
pub open spec fn builtin_views(cfg_dir: Seq<char>) -> Seq<ItemView> {
    seq![
        plain_item("Kwick: Open Config Folder"@, cfg_dir, ActionView::Open(cfg_dir)),
        plain_item("Kwick: Reload Index"@, "アプリ一覧を再スキャン"@, ActionView::Reload),
        plain_item("Kwick: Register Startup"@, "Windows ログオン時に自動起動する"@, ActionView::RegisterStartup),
        plain_item("Kwick: Unregister Startup"@, "自動起動を解除する"@, ActionView::UnregisterStartup),
        plain_item("Kwick: Quit"@, "Kwick を終了"@, ActionView::Quit),
    ]
}

/// The built-in commands for the configuration folder `cfg_dir`.
pub fn builtin_items_in(cfg_dir: &str) -> (r: Vec<Item>)
    ensures
        views(r@) == builtin_views(cfg_dir@),
{
    let mut v: Vec<Item> = Vec::new();
    v.push(Item::new("Kwick: Open Config Folder".to_owned(), cfg_dir.to_owned(), Action::Open(cfg_dir.to_owned())));
    v.push(Item::new("Kwick: Reload Index".to_owned(), "アプリ一覧を再スキャン".to_owned(), Action::Reload));
    v.push(Item::new("Kwick: Register Startup".to_owned(), "Windows ログオン時に自動起動する".to_owned(), Action::RegisterStartup));
    v.push(Item::new("Kwick: Unregister Startup".to_owned(), "自動起動を解除する".to_owned(), Action::UnregisterStartup));
    v.push(Item::new("Kwick: Quit".to_owned(), "Kwick を終了".to_owned(), Action::Quit));
    assert(views(v@) =~= builtin_views(cfg_dir@));
    v
}

/// The built-in commands (open config folder, reload, startup, quit).
pub fn builtin_items() -> (r: Vec<Item>)
    ensures
        exists|base: Option<Seq<char>>| views(r@) == builtin_views(#[trigger] config_dir_of(base)),
{
    let dir = config_dir();
    builtin_items_in(dir.as_str())
}

/// Keys already used, for keeping only the first of several items that share
/// a key.
pub struct Seen {
    keys: Vec<String>,
}

impl Seen {
    pub closed spec fn contents(&self) -> Set<Seq<char>> {
        Set::new(|k: Seq<char>| exists|i: int| 0 <= i < self.keys@.len() && #[trigger] self.keys@[i]@ == k)
    }

    pub fn new() -> (r: Self)
        ensures
            r.contents() == Set::<Seq<char>>::empty(),
    {
        let r = Seen { keys: Vec::new() };
        assert(r.contents() =~= Set::<Seq<char>>::empty());
        r
    }

    /// Adds `key`; returns whether it was new.
    pub fn insert(&mut self, key: String) -> (r: bool)
        ensures
            r == !old(self).contents().contains(key@),
            final(self).contents() == old(self).contents().insert(key@),
    {
        let mut i: usize = 0;
        while i < self.keys.len()
            invariant
                i <= self.keys@.len(),
                forall|j: int| 0 <= j < i ==> (#[trigger] self.keys@[j])@ != key@,
            decreases self.keys@.len() - i,
        {
            if str_eq(self.keys[i].as_str(), key.as_str()) {
                assert(self.contents().contains(key@));
                assert(self.contents().insert(key@) =~= self.contents());
                return false;
            }
            i = i + 1;
        }
        let ghost before = *self;
        self.keys.push(key);
        proof {
            assert(!before.contents().contains(key@));
            assert forall|k: Seq<char>| self.contents().contains(k) == before.contents().insert(key@).contains(k) by {
                if self.contents().contains(k) {
                    let i = choose|i: int| 0 <= i < self.keys@.len() && #[trigger] self.keys@[i]@ == k;
                    if i < before.keys@.len() {
                        assert(before.keys@[i] == self.keys@[i]);
                    }
                }
                if before.contents().contains(k) {
                    let i = choose|i: int| 0 <= i < before.keys@.len() && #[trigger] before.keys@[i]@ == k;
                    assert(before.keys@[i] == self.keys@[i]);
                }
                if k == key@ {
                    assert(self.keys@[before.keys@.len() as int]@ == k);
                }
            }
            assert(self.contents() =~= before.contents().insert(key@));
        }
        true
    }
}

/// A scanned entry that may become an item: the key used to drop duplicates,
/// and the item.
pub type Candidate = Option<(String, Item)>;

/// The characters of a candidate's key, and its item's view.
pub open spec fn cand_view(c: Candidate) -> Option<(Seq<char>, ItemView)> {
    match c {
        Some(p) => Some((p.0@, p.1@)),
        None => None,
    }
}

/// Entry `i` is kept: it is a candidate, and no earlier candidate has its key.
pub open spec fn first_of_key(c: Seq<Option<(Seq<char>, ItemView)>>, i: int) -> bool {
    c[i] is Some && forall|j: int| 0 <= j < i ==> c[j] is None || c[j].unwrap().0 != c[i].unwrap().0
}

/// The items of the candidates that are kept, in order: of several
/// candidates with the same key only the first stays.
pub open spec fn keep_first(c: Seq<Option<(Seq<char>, ItemView)>>) -> Seq<ItemView>
    decreases c.len(),
{
    if c.len() == 0 {
        Seq::empty()
    } else {
        let n = c.len() - 1;
        keep_first(c.take(n)) + if first_of_key(c, n) {
            seq![c[n].unwrap().1]
        } else {
            Seq::empty()
        }
    }
}

/// The keys of the candidates among the first `i`.
pub open spec fn keys_before(c: Seq<Option<(Seq<char>, ItemView)>>, i: int) -> Set<Seq<char>> {
    Set::new(|k: Seq<char>| exists|j: int| 0 <= j < i && c[j] is Some && c[j].unwrap().0 == k)
}

proof fn lemma_keep_first_step(c: Seq<Option<(Seq<char>, ItemView)>>, i: int)
    requires
        0 <= i < c.len(),
    ensures
        keep_first(c.take(i + 1)) == keep_first(c.take(i)) + if first_of_key(c, i) {
            seq![c[i].unwrap().1]
        } else {
            Seq::empty()
        },
        first_of_key(c, i) <==> (c[i] is Some && !keys_before(c, i).contains(c[i].unwrap().0)),
        c[i] is Some ==> keys_before(c, i + 1) == keys_before(c, i).insert(c[i].unwrap().0),
        c[i] is None ==> keys_before(c, i + 1) == keys_before(c, i),
{
    let c1 = c.take(i + 1);
    assert(c1.take(i) =~= c.take(i));
    assert forall|j: int| 0 <= j <= i implies c1[j] == c[j] by {}
    assert(first_of_key(c1, i) == first_of_key(c, i));
    if c[i] is Some {
        if first_of_key(c, i) {
            if keys_before(c, i).contains(c[i].unwrap().0) {
                let j = choose|j: int| 0 <= j < i && c[j] is Some && c[j].unwrap().0 == c[i].unwrap().0;
                assert(!(c[j] is None || c[j].unwrap().0 != c[i].unwrap().0));
            }
        } else {
            let j = choose|j: int| 0 <= j < i && !(c[j] is None || c[j].unwrap().0 != c[i].unwrap().0);
            assert(keys_before(c, i).contains(c[i].unwrap().0));
        }
        assert(keys_before(c, i + 1) =~= keys_before(c, i).insert(c[i].unwrap().0));
    } else {
        assert(keys_before(c, i + 1) =~= keys_before(c, i));
    }
}

/// `k` is the key of some candidate.
pub open spec fn is_key_of(c: Seq<Option<(Seq<char>, ItemView)>>, k: Seq<char>) -> bool {
    exists|j: int| 0 <= j < c.len() && c[j] is Some && c[j].unwrap().0 == k
}

/// Scanning never lists two items for one key: when each candidate's key is
/// `f` of its item (e.g. the lower-cased path of a folder item), the kept
/// items have pairwise different `f`, and each is the key of some candidate.
pub proof fn law_keep_first_no_duplicates(c: Seq<Option<(Seq<char>, ItemView)>>, f: spec_fn(ItemView) -> Seq<char>)
    requires
        forall|i: int| 0 <= i < c.len() && (#[trigger] c[i]) is Some ==> c[i].unwrap().0 == f(c[i].unwrap().1),
    ensures
        forall|a: int, b: int|
            0 <= a < b < keep_first(c).len() ==> f(#[trigger] keep_first(c)[a]) != f(#[trigger] keep_first(c)[b]),
        forall|a: int| 0 <= a < keep_first(c).len() ==> is_key_of(c, f(#[trigger] keep_first(c)[a])),
    decreases c.len(),
{
    if c.len() > 0 {
        let n = c.len() - 1;
        let p = c.take(n);
        assert forall|i: int| 0 <= i < p.len() && (#[trigger] p[i]) is Some implies p[i].unwrap().0 == f(p[i].unwrap().1) by {
            assert(p[i] == c[i]);
        }
        law_keep_first_no_duplicates(p, f);
        let k = keep_first(c);
        let kp = keep_first(p);
        assert forall|a: int| 0 <= a < kp.len() implies is_key_of(c, f(#[trigger] kp[a])) by {
            assert(is_key_of(p, f(kp[a])));
            let j = choose|j: int| 0 <= j < p.len() && p[j] is Some && p[j].unwrap().0 == f(kp[a]);
            assert(p[j] == c[j]);
        }
        if first_of_key(c, n) {
            assert(k == kp.push(c[n].unwrap().1));
            assert forall|a: int| 0 <= a < kp.len() implies f(#[trigger] kp[a]) != f(c[n].unwrap().1) by {
                assert(is_key_of(p, f(kp[a])));
                let j = choose|j: int| 0 <= j < p.len() && p[j] is Some && p[j].unwrap().0 == f(kp[a]);
                assert(p[j] == c[j]);
                assert(c[j] is None || c[j].unwrap().0 != c[n].unwrap().0);
            }
            assert forall|a: int, b: int| 0 <= a < b < k.len() implies f(#[trigger] k[a]) != f(#[trigger] k[b]) by {
                if b < kp.len() {
                    assert(k[a] == kp[a] && k[b] == kp[b]);
                } else {
                    assert(k[a] == kp[a]);
                    assert(k[b] == c[n].unwrap().1);
                }
            }
            assert forall|a: int| 0 <= a < k.len() implies is_key_of(c, f(#[trigger] k[a])) by {
                if a < kp.len() {
                    assert(k[a] == kp[a]);
                } else {
                    assert(f(k[a]) == c[n].unwrap().0);
                }
            }
        } else {
            assert(k =~= kp);
        }
    }
}

/// The items of the candidates, keeping only the first candidate of each key.
pub fn keep_first_items(cands: Vec<Candidate>) -> (r: Vec<Item>)
    ensures
        views(r@) == keep_first(cands@.map_values(|c: Candidate| cand_view(c))),
{
    let ghost cv = cands@.map_values(|c: Candidate| cand_view(c));
    let mut seen = Seen::new();
    let mut out: Vec<Item> = Vec::new();
    let mut i: usize = 0;
    let n = cands.len();
    assert(keys_before(cv, 0) =~= Set::<Seq<char>>::empty());
    assert(cv.take(0) =~= Seq::<Option<(Seq<char>, ItemView)>>::empty());
    while i < n
        invariant
            n == cands@.len(),
            cv == cands@.map_values(|c: Candidate| cand_view(c)),
            i <= n,
            seen.contents() == keys_before(cv, i as int),
            views(out@) == keep_first(cv.take(i as int)),
        decreases n - i,
    {
        proof {
            lemma_keep_first_step(cv, i as int);
        }
        match &cands[i] {
            Some(p) => {
                let key = p.0.clone();
                if seen.insert(key) {
                    let ghost before = out@;
                    out.push(p.1.clone());
                    assert(views(out@) =~= views(before).push(cv[i as int].unwrap().1));
                }
            },
            None => {},
        }
        i = i + 1;
    }
    assert(cv.take(n as int) =~= cv);
    out
}

/// The items each source found (the caller scans only the sources that the
/// configuration enables; the others may be left empty).
pub struct ScannedSources {
    /// Start Menu shortcuts (`apps::scan`).
    pub start_menu: Vec<Item>,
    /// App Paths registry entries (`registered::scan`).
    pub registered: Vec<Item>,
    /// Executables on PATH (`pathbin::scan`).
    pub path: Vec<Item>,
    /// Chocolatey shims (`pathbin::scan_chocolatey`).
    pub chocolatey: Vec<Item>,
    /// Files of the configured scan folders (`folders::scan`).
    pub folders: Vec<Item>,
    /// Curated Windows tools (`systools::scan`).
    pub system_tools: Vec<Item>,
    /// Power / session commands (`systools::power_items`).
    pub power: Vec<Item>,
    /// Well-known folders (`shellfolders::scan`).
    pub shell_folders: Vec<Item>,
}

/// `items` when `on`, else nothing.
pub open spec fn gated(on: bool, items: Seq<Item>) -> Seq<ItemView> {
    if on {
        views(items)
    } else {
        Seq::empty()
    }
}

/// The indexed items other than the built-in commands, in index order:
/// Start Menu apps (if `scan_start_menu`), App Paths entries, PATH executables
/// (if `scan_path`), Chocolatey shims (if `scan_chocolatey`), scan-folder
/// files, curated tools, power commands (if `system_commands`), well-known
/// folders.
pub open spec fn scanned_views(config: Config, found: ScannedSources) -> Seq<ItemView> {
    gated(config.scan_start_menu, found.start_menu@) + views(found.registered@) + gated(config.scan_path, found.path@)
        + gated(config.scan_chocolatey, found.chocolatey@) + views(found.folders@) + views(found.system_tools@)
        + gated(config.system_commands, found.power@) + views(found.shell_folders@)
}

fn append_views(out: &mut Vec<Item>, items: Vec<Item>)
    ensures
        views(final(out)@) == views(old(out)@) + views(items@),
{
    let ghost a = out@;
    let ghost b = items@;
    let mut items = items;
    out.append(&mut items);
    assert(views(out@) =~= views(a) + views(b));
}

/// Heavy scan result: the enabled sources' items, then the built-in commands.
pub fn scan_indexed(config: &Config, found: ScannedSources) -> (r: Vec<Item>)
    ensures
        exists|base: Option<Seq<char>>| views(r@) == scanned_views(*config, found) + builtin_views(#[trigger] config_dir_of(base)),
{
    let ghost f = found;
    let ScannedSources { start_menu, registered, path, chocolatey, folders, system_tools, power, shell_folders } = found;
    let mut items: Vec<Item> = Vec::new();
    if config.scan_start_menu {
        append_views(&mut items, start_menu);
    }
    append_views(&mut items, registered);
    if config.scan_path {
        append_views(&mut items, path);
    }
    if config.scan_chocolatey {
        append_views(&mut items, chocolatey);
    }
    append_views(&mut items, folders);
    append_views(&mut items, system_tools);
    if config.system_commands {
        append_views(&mut items, power);
    }
    append_views(&mut items, shell_folders);
    assert(views(items@) =~= scanned_views(*config, f));
    let builtins = builtin_items();
    let ghost before = items@;
    append_views(&mut items, builtins);
    items
}

} // verus!
