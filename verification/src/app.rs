//! The state of the interface and how it changes: key presses, replies from
//! the worker, and the commands it asks the worker to run.

use vstd::prelude::*;

use crate::bindings::BrewList;
use crate::info::{format_info, info_text};
use crate::items::{
    item_views, lemma_visible_indices, list_items, list_rows, outdated_items, outdated_output_rows,
    search_key, sorted_by_name, visible_indices, visible_item_indices, ints, InstalledItem, ItemKind,
    ItemView,
};
use crate::text::{decimal, push_decimal};
use crate::theme::Theme;
use crate::worker::{Command, CommandView, ListOption, Response};

verus! {

/// Which installed packages the list shows.
#[derive(Debug, Clone, Copy, PartialEq, Eq, Structural)]
pub enum InstalledFilter {
    All,
    Formula,
    Cask,
}

/// Which list is shown.
#[derive(Debug, Clone, Copy, PartialEq, Eq, Structural)]
pub enum ActiveView {
    Installed,
    Outdated,
}

/// A key press, as far as the interface tells keys apart.
#[derive(Debug, Clone, Copy, PartialEq, Eq, Structural)]
pub enum Key {
    Char(char),
    Enter,
    Esc,
    Backspace,
    Up,
    Down,
    Other,
}

/// The state of the interface.
pub struct App {
    pub should_quit: bool,
    pub theme: Theme,
    pub active_view: ActiveView,
    pub filter: InstalledFilter,
    pub items: Vec<InstalledItem>,
    /// The selected position among the visible rows.
    pub selected: Option<usize>,
    pub status_line: String,
    pub search_mode: bool,
    pub search_query: String,
    pub show_info_popup: bool,
    pub info_popup_text: String,
    /// The command waiting to be sent to the worker.
    pub pending: Option<Command>,
}

/// The state of the interface as values.
pub struct AppModel {
    pub should_quit: bool,
    pub theme: Theme,
    pub active_view: ActiveView,
    pub filter: InstalledFilter,
    pub items: Seq<ItemView>,
    pub selected: Option<usize>,
    pub status: Seq<char>,
    pub search_mode: bool,
    pub query: Seq<char>,
    pub popup: bool,
    pub popup_text: Seq<char>,
    pub pending: Option<CommandView>,
}

/// The view of an optional command.
pub open spec fn pending_view(c: Option<Command>) -> Option<CommandView> {
    match c {
        Some(c) => Some(c@),
        None => None,
    }
}

impl View for App {
    type V = AppModel;

    open spec fn view(&self) -> AppModel {
        AppModel {
            should_quit: self.should_quit,
            theme: self.theme,
            active_view: self.active_view,
            filter: self.filter,
            items: item_views(self.items@),
            selected: self.selected,
            status: self.status_line@,
            search_mode: self.search_mode,
            query: self.search_query@,
            popup: self.show_info_popup,
            popup_text: self.info_popup_text@,
            pending: pending_view(self.pending),
        }
    }
}

/// The positions of the rows that the search lets through.
pub open spec fn visible_of(m: AppModel) -> Seq<int> {
    visible_indices(m.items, search_key(m.query))
}

/// How many rows the search lets through.
pub open spec fn visible_count(m: AppModel) -> nat {
    visible_of(m).len()
}

/// The selection kept within `len` visible rows: none when there are none,
/// else the old position (the first when there was none) but at most the
/// last.
pub open spec fn clamped(sel: Option<usize>, len: nat) -> Option<usize> {
    if len == 0 {
        None
    } else {
        let i = match sel {
            Some(i) => i as int,
            None => 0,
        };
        Some((if i < len - 1 { i } else { len - 1 }) as usize)
    }
}

/// The selection after moving down among `len` rows, wrapping from the last
/// to the first.
pub open spec fn next_selection(sel: Option<usize>, len: nat) -> Option<usize> {
    if len == 0 {
        None
    } else {
        let i = match sel {
            Some(i) => i as int,
            None => 0,
        };
        Some((if i >= len - 1 { 0 } else { i + 1 }) as usize)
    }
}

/// The selection after moving up among `len` rows, wrapping from the first
/// to the last.
pub open spec fn previous_selection(sel: Option<usize>, len: nat) -> Option<usize> {
    if len == 0 {
        None
    } else {
        let i = match sel {
            Some(i) => i as int,
            None => 0,
        };
        Some((if i == 0 { len - 1 } else { i - 1 }) as usize)
    }
}

/// `m` with the selection `sel`.
pub open spec fn with_selection(m: AppModel, sel: Option<usize>) -> AppModel {
    AppModel { selected: sel, ..m }
}

/// `m` with the status line `s`.
pub open spec fn with_status(m: AppModel, s: Seq<char>) -> AppModel {
    AppModel { status: s, ..m }
}

/// `m` with `c` waiting to be sent.
pub open spec fn with_request(m: AppModel, c: CommandView) -> AppModel {
    AppModel { pending: Some(c), ..m }
}

/// The selection is a visible row, or there is none when no row is visible.
pub open spec fn selection_valid(m: AppModel) -> bool {
    match m.selected {
        Some(i) => i < visible_count(m),
        None => visible_count(m) == 0,
    }
}

/// The row that is selected, if the selection points at a visible row.
pub open spec fn selected_row(m: AppModel) -> Option<int> {
    match m.selected {
        Some(i) => if i < visible_count(m) {
            Some(visible_of(m)[i as int])
        } else {
            None
        },
        None => None,
    }
}

/// `m` with the selection kept within the visible rows.
pub open spec fn clamp_step(m: AppModel) -> AppModel {
    with_selection(m, clamped(m.selected, visible_count(m)))
}

/// The listing that the filter asks for.
pub open spec fn list_option(f: InstalledFilter) -> ListOption {
    match f {
        InstalledFilter::All => ListOption::All,
        InstalledFilter::Formula => ListOption::Formula,
        InstalledFilter::Cask => ListOption::Cask,
    }
}

/// `m` asking for the installed packages that its filter selects.
pub open spec fn request_list_step(m: AppModel) -> AppModel {
    with_request(m, CommandView::List(list_option(m.filter)))
}

/// `m` asking to upgrade the selected package, or saying that none is
/// selected.
pub open spec fn upgrade_selected_step(m: AppModel) -> AppModel {
    match selected_row(m) {
        Some(k) => with_request(
            m,
            CommandView::UpgradePackage { name: m.items[k].name, is_cask: m.items[k].kind == ItemKind::Cask },
        ),
        None => with_status(m, "No package selected"@),
    }
}

/// `m` asking for information on the selected package, or saying that none
/// is selected.
pub open spec fn info_selected_step(m: AppModel) -> AppModel {
    match selected_row(m) {
        Some(k) => with_request(m, CommandView::Info(m.items[k].name)),
        None => with_status(m, "No package selected"@),
    }
}

/// `m` asking again for the list that it shows.
pub open spec fn refresh_step(m: AppModel) -> AppModel {
    match m.active_view {
        ActiveView::Installed => request_list_step(m),
        ActiveView::Outdated => with_request(m, CommandView::Outdated),
    }
}

/// The status line after trying to send `c`: what is under way, or that the
/// worker could not be reached. Sending `Shutdown` leaves it as it is.
pub open spec fn send_status(c: CommandView, sent: bool) -> Option<Seq<char>> {
    match c {
        CommandView::List(_) => Some(
            if sent {
                "Loading installed packages..."@
            } else {
                "Failed to send list command to worker"@
            },
        ),
        CommandView::Outdated => Some(
            if sent {
                "Loading outdated packages..."@
            } else {
                "Failed to send outdated command to worker"@
            },
        ),
        CommandView::Update => Some(
            if sent {
                "Running brew update..."@
            } else {
                "Failed to send update command to worker"@
            },
        ),
        CommandView::Upgrade => Some(
            if sent {
                "Running brew upgrade..."@
            } else {
                "Failed to send upgrade command to worker"@
            },
        ),
        CommandView::UpgradePackage { name, is_cask } => Some(
            if sent {
                "Upgrading "@ + name + "..."@
            } else {
                "Failed to send package upgrade command to worker"@
            },
        ),
        CommandView::Info(name) => Some(
            if sent {
                "Loading info for "@ + name + "..."@
            } else {
                "Failed to send info command to worker"@
            },
        ),
        CommandView::Shutdown => None,
    }
}

/// `m` once its waiting command has been handed to the worker (`sent`) or
/// could not be.
pub open spec fn sent_step(m: AppModel, sent: bool) -> AppModel {
    match m.pending {
        Some(c) => AppModel {
            pending: None,
            status: match send_status(c, sent) {
                Some(s) => s,
                None => m.status,
            },
            ..m
        },
        None => m,
    }
}

/// The status line while searching.
pub open spec fn search_status(query: Seq<char>, count: nat) -> Seq<char> {
    "Search: '"@ + query + "' ("@ + decimal(count) + " results)"@
}

/// `q` without its last character, if it has one.
pub open spec fn without_last(q: Seq<char>) -> Seq<char> {
    if q.len() > 0 {
        q.drop_last()
    } else {
        q
    }
}

/// A key while the information popup is open: `i` or Esc closes it, `q`
/// quits, anything else is ignored.
pub open spec fn popup_key_step(m: AppModel, key: Key) -> AppModel {
    if key == Key::Char('i') || key == Key::Esc {
        AppModel { popup: false, ..m }
    } else if key == Key::Char('q') {
        AppModel { should_quit: true, ..m }
    } else {
        m
    }
}

/// What a key does to the search: Enter or Esc ends it, `j`/Down and
/// `k`/Up move the selection, Backspace and other characters edit the query.
pub open spec fn search_edit_step(m: AppModel, key: Key) -> AppModel {
    if key == Key::Enter || key == Key::Esc {
        AppModel { search_mode: false, ..m }
    } else if key == Key::Char('j') || key == Key::Down {
        with_selection(m, next_selection(m.selected, visible_count(m)))
    } else if key == Key::Char('k') || key == Key::Up {
        with_selection(m, previous_selection(m.selected, visible_count(m)))
    } else if key == Key::Backspace {
        clamp_step(AppModel { query: without_last(m.query), ..m })
    } else if key is Char {
        clamp_step(AppModel { query: m.query.push(key->Char_0), ..m })
    } else {
        m
    }
}

/// A key while searching: its edit, then a status line with the query and
/// the number of rows it lets through.
pub open spec fn search_key_step(m: AppModel, key: Key) -> AppModel {
    let e = search_edit_step(m, key);
    with_status(e, search_status(e.query, visible_count(e)))
}

/// A key in the list.
pub open spec fn list_key_step(m: AppModel, key: Key) -> AppModel {
    if key == Key::Char('q') {
        AppModel { should_quit: true, ..m }
    } else if key == Key::Char('j') || key == Key::Down {
        with_selection(m, next_selection(m.selected, visible_count(m)))
    } else if key == Key::Char('k') || key == Key::Up {
        with_selection(m, previous_selection(m.selected, visible_count(m)))
    } else if key == Key::Char('/') {
        AppModel {
            search_mode: true,
            status: "Search mode: type to filter, Enter/Esc to finish"@,
            ..m
        }
    } else if key == Key::Char('1') {
        request_list_step(AppModel { active_view: ActiveView::Installed, filter: InstalledFilter::All, ..m })
    } else if key == Key::Char('2') {
        request_list_step(AppModel { active_view: ActiveView::Installed, filter: InstalledFilter::Formula, ..m })
    } else if key == Key::Char('3') {
        request_list_step(AppModel { active_view: ActiveView::Installed, filter: InstalledFilter::Cask, ..m })
    } else if key == Key::Char('r') {
        request_list_step(m)
    } else if key == Key::Char('o') {
        with_request(AppModel { active_view: ActiveView::Outdated, ..m }, CommandView::Outdated)
    } else if key == Key::Char('u') {
        with_request(m, CommandView::Update)
    } else if key == Key::Char('g') {
        with_request(m, CommandView::Upgrade)
    } else if key == Key::Char('G') {
        upgrade_selected_step(m)
    } else if key == Key::Char('i') {
        if m.popup {
            AppModel { popup: false, ..m }
        } else {
            info_selected_step(m)
        }
    } else if key == Key::Esc {
        AppModel { popup: false, ..m }
    } else {
        m
    }
}

/// What a key press does.
pub open spec fn key_step(m: AppModel, key: Key) -> AppModel {
    if m.popup {
        popup_key_step(m, key)
    } else if m.search_mode {
        search_key_step(m, key)
    } else {
        list_key_step(m, key)
    }
}

/// `m` showing a listing: its rows sorted by name, the selection kept within
/// them, and a status line that counts them.
pub open spec fn list_step(m: AppModel, list: BrewList) -> AppModel {
    let items = sorted_by_name(list_rows(list));
    let c = clamp_step(AppModel { active_view: ActiveView::Installed, items: items, ..m });
    if items.len() == 0 {
        with_status(with_selection(c, None), "No installed packages found"@)
    } else {
        with_status(
            c,
            decimal(items.len()) + " installed packages ("@ + decimal(visible_count(c)) + " visible)"@,
        )
    }
}

/// `m` showing the outdated packages that `out` lists.
pub open spec fn outdated_step(m: AppModel, out: Seq<char>) -> AppModel {
    let items = sorted_by_name(outdated_output_rows(out));
    let c = clamp_step(AppModel { items: items, ..m });
    if items.len() == 0 {
        with_status(c, "No outdated packages"@)
    } else {
        with_status(c, decimal(items.len()) + " outdated packages"@)
    }
}

/// `m` with the popup open on `text`.
pub open spec fn popup_step(m: AppModel, text: Seq<char>) -> AppModel {
    AppModel { popup: true, popup_text: text, ..m }
}

/// What a reply from the worker does.
pub open spec fn response_step(m: AppModel, r: Response) -> AppModel {
    match r {
        Response::List(l) => list_step(m, l),
        Response::Info(i) => popup_step(m, info_text(i@)),
        Response::Outdated(o) => outdated_step(m, o@),
        Response::UpdateResult(o) => with_status(popup_step(m, o@), "brew update finished"@),
        Response::UpgradeResult(o) => refresh_step(with_status(popup_step(m, o@), "brew upgrade finished"@)),
        Response::UpgradePackageResult { name, output } => refresh_step(
            with_status(popup_step(m, output@), "brew upgrade finished for "@ + name@),
        ),
    }
}

/// The state at start-up: the installed list, empty, with the first row
/// selected, asking the worker for all installed packages.
pub open spec fn initial_model(theme: Theme) -> AppModel {
    AppModel {
        should_quit: false,
        theme: theme,
        active_view: ActiveView::Installed,
        filter: InstalledFilter::All,
        items: Seq::empty(),
        selected: Some(0),
        status: "Loading installed packages..."@,
        search_mode: false,
        query: Seq::empty(),
        popup: false,
        popup_text: Seq::empty(),
        pending: Some(CommandView::List(ListOption::All)),
    }
}

impl App {
    /// The positions of the rows that the search lets through.
    pub fn visible_item_indices(&self) -> (r: Vec<usize>)
        ensures
            ints(r@) == visible_of(self@),
    {
        visible_item_indices(&self.items, self.search_query.as_str())
    }

    /// How many rows the search lets through.
    pub fn visible_count(&self) -> (n: usize)
        ensures
            n == visible_count(self@),
    {
        let v = self.visible_item_indices();
        v.len()
    }

    /// Moves the selection down, wrapping around.
    pub fn select_next(&mut self)
        ensures
            final(self)@ == with_selection(old(self)@, next_selection(old(self)@.selected, visible_count(old(self)@))),
    {
        let len = self.visible_count();
        if len == 0 {
            self.selected = None;
            return;
        }
        let i = match self.selected {
            Some(i) => i,
            None => 0,
        };
        let next = if i >= len - 1 { 0 } else { i + 1 };
        self.selected = Some(next);
    }

    /// Moves the selection up, wrapping around.
    pub fn select_previous(&mut self)
        ensures
            final(self)@ == with_selection(old(self)@, previous_selection(old(self)@.selected, visible_count(old(self)@))),
    {
        let len = self.visible_count();
        if len == 0 {
            self.selected = None;
            return;
        }
        let i = match self.selected {
            Some(i) => i,
            None => 0,
        };
        let prev = if i == 0 { len - 1 } else { i - 1 };
        self.selected = Some(prev);
    }

    /// Keeps the selection within the visible rows.
    pub fn clamp_selection_to_visible_items(&mut self)
        ensures
            final(self)@ == with_selection(old(self)@, clamped(old(self)@.selected, visible_count(old(self)@))),
    {
        let len = self.visible_count();
        if len == 0 {
            self.selected = None;
            return;
        }
        let i = match self.selected {
            Some(i) => i,
            None => 0,
        };
        let s = if i < len - 1 { i } else { len - 1 };
        self.selected = Some(s);
    }

    /// The row that is selected, if the selection points at a visible row.
    pub fn selected_item(&self) -> (r: Option<&InstalledItem>)
        ensures
            match selected_row(self@) {
                Some(k) => r is Some && 0 <= k < self.items@.len() && *r->0 == self.items@[k],
                None => r is None,
            },
    {
        let idx = match self.selected {
            Some(i) => i,
            None => return None,
        };
        let visible = self.visible_item_indices();
        if idx >= visible.len() {
            return None;
        }
        let item_idx = visible[idx];
        proof {
            lemma_visible_indices(item_views(self.items@), search_key(self.search_query@));
            assert(ints(visible@)[idx as int] == item_idx as int);
        }
        Some(&self.items[item_idx])
    }
}

impl App {
    /// The interface at start-up, asking the worker for all installed
    /// packages.
    pub fn new(theme: Theme) -> (app: App)
        ensures
            app@ == initial_model(theme),
    {
        let mut app = App {
            should_quit: false,
            theme,
            active_view: ActiveView::Installed,
            filter: InstalledFilter::All,
            items: Vec::new(),
            selected: Some(0),
            status_line: String::from_str("Loading installed packages..."),
            search_mode: false,
            search_query: String::new(),
            show_info_popup: false,
            info_popup_text: String::new(),
            pending: None,
        };
        app.request_list();
        assert(app@.items =~= Seq::<ItemView>::empty());
        app
    }

    /// Asks for the installed packages that the filter selects.
    pub fn request_list(&mut self)
        ensures
            final(self)@ == request_list_step(old(self)@),
    {
        let option = match self.filter {
            InstalledFilter::All => ListOption::All,
            InstalledFilter::Formula => ListOption::Formula,
            InstalledFilter::Cask => ListOption::Cask,
        };
        self.pending = Some(Command::List(option));
    }

    /// Asks for the outdated packages.
    pub fn request_outdated(&mut self)
        ensures
            final(self)@ == with_request(old(self)@, CommandView::Outdated),
    {
        self.pending = Some(Command::Outdated);
    }

    /// Asks for `brew update`.
    pub fn request_update(&mut self)
        ensures
            final(self)@ == with_request(old(self)@, CommandView::Update),
    {
        self.pending = Some(Command::Update);
    }

    /// Asks for `brew upgrade`.
    pub fn request_upgrade(&mut self)
        ensures
            final(self)@ == with_request(old(self)@, CommandView::Upgrade),
    {
        self.pending = Some(Command::Upgrade);
    }

    /// Asks to upgrade the selected package.
    pub fn request_upgrade_selected(&mut self)
        ensures
            final(self)@ == upgrade_selected_step(old(self)@),
    {
        let command = match self.selected_item() {
            Some(item) => Some(
                Command::UpgradePackage { name: item.name.clone(), is_cask: item.kind == ItemKind::Cask },
            ),
            None => None,
        };
        match command {
            Some(c) => {
                self.pending = Some(c);
            },
            None => {
                self.status_line = String::from_str("No package selected");
            },
        }
    }

    /// Asks for information on the selected package.
    pub fn request_info_for_selected(&mut self)
        ensures
            final(self)@ == info_selected_step(old(self)@),
    {
        let command = match self.selected_item() {
            Some(item) => Some(Command::Info(item.name.clone())),
            None => None,
        };
        match command {
            Some(c) => {
                self.pending = Some(c);
            },
            None => {
                self.status_line = String::from_str("No package selected");
            },
        }
    }

    /// Asks again for the list that is shown.
    pub fn refresh_active_view(&mut self)
        ensures
            final(self)@ == refresh_step(old(self)@),
    {
        match self.active_view {
            ActiveView::Installed => self.request_list(),
            ActiveView::Outdated => self.request_outdated(),
        }
    }

    /// Records whether the waiting command reached the worker.
    pub fn report_sent(&mut self, sent: bool)
        ensures
            final(self)@ == sent_step(old(self)@, sent),
    {
        let status = match &self.pending {
            None => return,
            Some(Command::List(_)) => if sent {
                String::from_str("Loading installed packages...")
            } else {
                String::from_str("Failed to send list command to worker")
            },
            Some(Command::Outdated) => if sent {
                String::from_str("Loading outdated packages...")
            } else {
                String::from_str("Failed to send outdated command to worker")
            },
            Some(Command::Update) => if sent {
                String::from_str("Running brew update...")
            } else {
                String::from_str("Failed to send update command to worker")
            },
            Some(Command::Upgrade) => if sent {
                String::from_str("Running brew upgrade...")
            } else {
                String::from_str("Failed to send upgrade command to worker")
            },
            Some(Command::UpgradePackage { name, .. }) => if sent {
                let mut t = String::from_str("Upgrading ");
                t.append(name.as_str());
                t.append("...");
                t
            } else {
                String::from_str("Failed to send package upgrade command to worker")
            },
            Some(Command::Info(name)) => if sent {
                let mut t = String::from_str("Loading info for ");
                t.append(name.as_str());
                t.append("...");
                t
            } else {
                String::from_str("Failed to send info command to worker")
            },
            Some(Command::Shutdown) => {
                self.pending = None;
                return;
            },
        };
        self.status_line = status;
        self.pending = None;
    }

    /// What a key press does.
    pub fn handle_key_event(&mut self, key: Key)
        ensures
            final(self)@ == key_step(old(self)@, key),
    {
        if self.show_info_popup {
            match key {
                Key::Char('i') | Key::Esc => self.show_info_popup = false,
                Key::Char('q') => self.should_quit = true,
                _ => {},
            }
            return;
        }
        if self.search_mode {
            match key {
                Key::Enter | Key::Esc => self.search_mode = false,
                Key::Char('j') | Key::Down => self.select_next(),
                Key::Char('k') | Key::Up => self.select_previous(),
                Key::Backspace => {
                    self.search_query.pop();
                    self.clamp_selection_to_visible_items();
                },
                Key::Char(c) => {
                    self.search_query.push(c);
                    self.clamp_selection_to_visible_items();
                },
                _ => {},
            }
            let visible_count = self.visible_count();
            let mut status = String::from_str("Search: '");
            status.append(self.search_query.as_str());
            status.append("' (");
            push_decimal(&mut status, visible_count);
            status.append(" results)");
            self.status_line = status;
            return;
        }
        match key {
            Key::Char('q') => self.should_quit = true,
            Key::Char('j') | Key::Down => self.select_next(),
            Key::Char('k') | Key::Up => self.select_previous(),
            Key::Char('/') => {
                self.search_mode = true;
                self.status_line = String::from_str("Search mode: type to filter, Enter/Esc to finish");
            },
            Key::Char('1') => {
                self.active_view = ActiveView::Installed;
                self.filter = InstalledFilter::All;
                self.request_list();
            },
            Key::Char('2') => {
                self.active_view = ActiveView::Installed;
                self.filter = InstalledFilter::Formula;
                self.request_list();
            },
            Key::Char('3') => {
                self.active_view = ActiveView::Installed;
                self.filter = InstalledFilter::Cask;
                self.request_list();
            },
            Key::Char('r') => self.request_list(),
            Key::Char('o') => {
                self.active_view = ActiveView::Outdated;
                self.request_outdated();
            },
            Key::Char('u') => self.request_update(),
            Key::Char('g') => self.request_upgrade(),
            Key::Char('G') => self.request_upgrade_selected(),
            Key::Char('i') => {
                if self.show_info_popup {
                    self.show_info_popup = false;
                } else {
                    self.request_info_for_selected();
                }
            },
            Key::Esc => self.show_info_popup = false,
            _ => {},
        }
    }

    /// Shows a listing: its rows sorted by name.
    pub fn apply_list(&mut self, list: BrewList)
        ensures
            final(self)@ == list_step(old(self)@, list),
    {
        self.active_view = ActiveView::Installed;
        self.items = list_items(&list);
        self.clamp_selection_to_visible_items();
        let visible_count = self.visible_count();
        if self.items.len() == 0 {
            self.selected = None;
            self.status_line = String::from_str("No installed packages found");
        } else {
            let mut status = String::new();
            push_decimal(&mut status, self.items.len());
            status.append(" installed packages (");
            push_decimal(&mut status, visible_count);
            status.append(" visible)");
            self.status_line = status;
        }
    }

    /// Shows the packages that the output of `brew outdated` lists.
    pub fn apply_outdated_output(&mut self, output: String)
        ensures
            final(self)@ == outdated_step(old(self)@, output@),
    {
        self.items = outdated_items(output.as_str());
        self.clamp_selection_to_visible_items();
        if self.items.len() == 0 {
            self.status_line = String::from_str("No outdated packages");
        } else {
            let mut status = String::new();
            push_decimal(&mut status, self.items.len());
            status.append(" outdated packages");
            self.status_line = status;
        }
    }

    /// What a reply from the worker does.
    pub fn apply_response(&mut self, response: Response)
        ensures
            final(self)@ == response_step(old(self)@, response),
    {
        match response {
            Response::List(list) => self.apply_list(list),
            Response::Info(info) => {
                self.info_popup_text = format_info(info);
                self.show_info_popup = true;
            },
            Response::Outdated(output) => self.apply_outdated_output(output),
            Response::UpdateResult(output) => {
                self.info_popup_text = output;
                self.show_info_popup = true;
                self.status_line = String::from_str("brew update finished");
            },
            Response::UpgradeResult(output) => {
                self.info_popup_text = output;
                self.show_info_popup = true;
                self.status_line = String::from_str("brew upgrade finished");
                self.refresh_active_view();
            },
            Response::UpgradePackageResult { name, output } => {
                self.info_popup_text = output;
                self.show_info_popup = true;
                let mut status = String::from_str("brew upgrade finished for ");
                status.append(name.as_str());
                self.status_line = status;
                self.refresh_active_view();
            },
        }
    }

    /// Records that the worker can no longer be reached.
    pub fn worker_disconnected(&mut self)
        ensures
            final(self)@ == with_status(old(self)@, "Worker disconnected"@),
    {
        self.status_line = String::from_str("Worker disconnected");
    }
}

/// Every key press keeps a valid selection valid: it points at a visible row,
/// or there is none when no row is visible.
pub proof fn lemma_key_keeps_selection_valid(m: AppModel, key: Key)
    requires
        selection_valid(m),
    ensures
        selection_valid(key_step(m, key)),
{
}

/// Every reply from the worker leaves a valid selection: the lists it
/// replaces clamp the selection to their rows, and the others leave the rows
/// and the query alone.
pub proof fn lemma_response_keeps_selection_valid(m: AppModel, r: Response)
    requires
        selection_valid(m),
    ensures
        selection_valid(response_step(m, r)),
{
}

/// A new listing or a new outdated list always leaves a valid selection.
pub proof fn lemma_new_lists_make_selection_valid(m: AppModel, list: BrewList, out: Seq<char>)
    ensures
        selection_valid(list_step(m, list)),
        selection_valid(outdated_step(m, out)),
{
}

/// Reporting a send changes neither the rows nor the selection.
pub proof fn lemma_sent_keeps_selection_valid(m: AppModel, sent: bool)
    requires
        selection_valid(m),
    ensures
        selection_valid(sent_step(m, sent)),
        sent_step(m, sent).pending is None,
{
}

/// The selection after moving down `n` times among `len` rows.
pub open spec fn moved_down(sel: Option<usize>, len: nat, n: nat) -> Option<usize>
    decreases n,
{
    if n == 0 {
        sel
    } else {
        next_selection(moved_down(sel, len, (n - 1) as nat), len)
    }
}

proof fn lemma_moved_down_position(i: usize, len: nat, n: nat)
    requires
        i < len <= usize::MAX,
    ensures
        moved_down(Some(i), len, n) == Some(((i + n) % (len as int)) as usize),
    decreases n,
{
    if n > 0 {
        lemma_moved_down_position(i, len, (n - 1) as nat);
        let a = i + n - 1;
        let r = a % (len as int);
        assert(0 <= r < len) by (nonlinear_arith)
            requires
                len > 0,
                r == a % (len as int),
        ;
        assert((if r + 1 == len { 0 } else { r + 1 }) == (a + 1) % (len as int)) by (nonlinear_arith)
            requires
                len > 0,
                a >= 0,
                r == a % (len as int),
                0 <= r < len,
        {
            let q = a / (len as int);
            assert(a == q * len + r);
            if r + 1 == len {
                assert(a + 1 == (q + 1) * len + 0);
            } else {
                assert(a + 1 == q * len + (r + 1));
            }
        }
        assert(moved_down(Some(i), len, (n - 1) as nat) == Some(r as usize));
        assert(a + 1 == i + n);
    } else {
        assert((i as int) % (len as int) == i) by (nonlinear_arith)
            requires
                0 <= i < len,
        ;
    }
}

/// Moving down as many times as there are rows comes back to the row where
/// it started.
pub proof fn lemma_moving_down_cycles(i: usize, len: nat)
    requires
        i < len <= usize::MAX,
    ensures
        moved_down(Some(i), len, len) == Some(i),
{
    lemma_moved_down_position(i, len, len);
    assert((i + len) % (len as int) == i) by (nonlinear_arith)
        requires
            0 <= i < len,
    {
        assert(i + len == 1 * len + i);
    }
}

/// In the list, moving down and then up (or up and then down) comes back to
/// the same state.
pub proof fn lemma_down_up_round_trip(m: AppModel)
    requires
        m.items.len() <= usize::MAX,
        selection_valid(m),
        !m.popup,
        !m.search_mode,
    ensures
        key_step(key_step(m, Key::Down), Key::Up) == m,
        key_step(key_step(m, Key::Up), Key::Down) == m,
{
    let n = visible_count(m);
    lemma_visible_indices(m.items, search_key(m.query));
    let d = key_step(m, Key::Down);
    assert(d == with_selection(m, next_selection(m.selected, n)));
    assert(visible_count(d) == n);
    assert(previous_selection(next_selection(m.selected, n), n) == m.selected);
    assert(with_selection(d, m.selected) == m);
    let u = key_step(m, Key::Up);
    assert(u == with_selection(m, previous_selection(m.selected, n)));
    assert(visible_count(u) == n);
    assert(next_selection(previous_selection(m.selected, n), n) == m.selected);
    assert(with_selection(u, m.selected) == m);
}

/// While searching, typing a character (other than the movement keys `j`
/// and `k`) and then Backspace gives the query back as it was.
pub proof fn lemma_type_then_backspace(m: AppModel, c: char)
    requires
        m.search_mode,
        !m.popup,
        c != 'j',
        c != 'k',
    ensures
        key_step(key_step(m, Key::Char(c)), Key::Backspace).query == m.query,
{
    assert(m.query.push(c).drop_last() =~= m.query);
}

/// While the popup is open, every key but `i`, Esc and `q` is ignored.
pub proof fn lemma_popup_ignores_keys(m: AppModel, key: Key)
    requires
        m.popup,
        key != Key::Char('i'),
        key != Key::Esc,
        key != Key::Char('q'),
    ensures
        key_step(m, key) == m,
{
}

/// Once the interface is told to quit, nothing takes that back.
pub proof fn lemma_quit_stays(m: AppModel, key: Key, r: Response, sent: bool)
    requires
        m.should_quit,
    ensures
        key_step(m, key).should_quit,
        response_step(m, r).should_quit,
        sent_step(m, sent).should_quit,
{
}


/// The row that the selection points at, read from the visible positions.
pub open spec fn row_at_selection(m: AppModel) -> int {
    visible_indices(m.items, search_key(m.query))[m.selected->0 as int]
}

/// With a row selected in the list, `G` asks to upgrade that row by its name,
/// as a cask exactly when the row is a cask (so never for an outdated row),
/// and `i` asks for information on that row by its name.
pub proof fn lemma_selected_row_commands(m: AppModel)
    requires
        !m.popup,
        !m.search_mode,
        m.selected is Some,
        m.selected->0 < visible_indices(m.items, search_key(m.query)).len(),
    ensures
        key_step(m, Key::Char('G')).pending is Some,
        key_step(m, Key::Char('G')).pending->0 is UpgradePackage,
        key_step(m, Key::Char('G')).pending->0->UpgradePackage_name == m.items[row_at_selection(m)].name,
        key_step(m, Key::Char('G')).pending->0->UpgradePackage_is_cask
            == (m.items[row_at_selection(m)].kind == ItemKind::Cask),
        m.items[row_at_selection(m)].kind == ItemKind::Outdated
            ==> !key_step(m, Key::Char('G')).pending->0->UpgradePackage_is_cask,
        key_step(m, Key::Char('i')).pending == Some(CommandView::Info(m.items[row_at_selection(m)].name)),
{
}

/// With the popup open, `i` closes it just as Esc does, and changes nothing
/// else.
pub proof fn lemma_popup_i_closes(m: AppModel)
    requires
        m.popup,
    ensures
        key_step(m, Key::Char('i')) == key_step(m, Key::Esc),
        key_step(m, Key::Esc) == (AppModel { popup: false, ..m }),
{
}


/// In the list, with row `i` of `n` visible rows selected, Down (or `j`)
/// selects row `(i + 1) % n` and Up (or `k`) selects row `(i + n - 1) % n`,
/// and nothing else changes.
pub proof fn lemma_moves_wrap(m: AppModel)
    requires
        !m.popup,
        !m.search_mode,
        m.items.len() <= usize::MAX,
        m.selected is Some,
        m.selected->0 < visible_indices(m.items, search_key(m.query)).len(),
    ensures
        ({
            let n = visible_indices(m.items, search_key(m.query)).len() as int;
            let i = m.selected->0 as int;
            &&& key_step(m, Key::Down) == (AppModel { selected: Some(((i + 1) % n) as usize), ..m })
            &&& key_step(m, Key::Char('j')) == key_step(m, Key::Down)
            &&& key_step(m, Key::Up) == (AppModel { selected: Some(((i + n - 1) % n) as usize), ..m })
            &&& key_step(m, Key::Char('k')) == key_step(m, Key::Up)
        }),
{
    let n = visible_indices(m.items, search_key(m.query)).len() as int;
    let i = m.selected->0 as int;
    lemma_visible_indices(m.items, search_key(m.query));
    if i + 1 == n {
        assert((i + 1) % n == 0) by (nonlinear_arith)
            requires
                i + 1 == n,
                n > 0,
        ;
    } else {
        assert((i + 1) % n == i + 1) by (nonlinear_arith)
            requires
                0 <= i + 1 < n,
        ;
    }
    if i == 0 {
        assert((i + n - 1) % n == n - 1) by (nonlinear_arith)
            requires
                i == 0,
                n > 0,
        ;
    } else {
        assert((i + n - 1) % n == i - 1) by (nonlinear_arith)
            requires
                0 < i < n,
        {
            assert(i + n - 1 == 1 * n + (i - 1));
        }
    }
}

/// While searching, a typed character (other than `j` and `k`) is appended
/// to the query, and Backspace removes its last character.
pub proof fn lemma_search_edits_query(m: AppModel, c: char)
    requires
        m.search_mode,
        !m.popup,
        c != 'j',
        c != 'k',
    ensures
        key_step(m, Key::Char(c)).query == m.query.push(c),
        key_step(m, Key::Char(c)).search_mode,
        m.query.len() > 0 ==> key_step(m, Key::Backspace).query == m.query.drop_last(),
        m.query.len() == 0 ==> key_step(m, Key::Backspace).query == m.query,
{
}

/// `q` quits from the list and from the popup.
pub proof fn lemma_q_quits(m: AppModel)
    requires
        m.popup || !m.search_mode,
    ensures
        key_step(m, Key::Char('q')).should_quit,
{
}

/// `1`, `2` and `3` show the installed list with all packages, formulae or
/// casks, and ask the worker for exactly that listing.
pub proof fn lemma_filter_keys(m: AppModel)
    requires
        !m.popup,
        !m.search_mode,
    ensures
        key_step(m, Key::Char('1')).filter == InstalledFilter::All,
        key_step(m, Key::Char('1')).active_view == ActiveView::Installed,
        key_step(m, Key::Char('1')).pending == Some(CommandView::List(ListOption::All)),
        key_step(m, Key::Char('2')).filter == InstalledFilter::Formula,
        key_step(m, Key::Char('2')).active_view == ActiveView::Installed,
        key_step(m, Key::Char('2')).pending == Some(CommandView::List(ListOption::Formula)),
        key_step(m, Key::Char('3')).filter == InstalledFilter::Cask,
        key_step(m, Key::Char('3')).active_view == ActiveView::Installed,
        key_step(m, Key::Char('3')).pending == Some(CommandView::List(ListOption::Cask)),
        key_step(m, Key::Char('o')).active_view == ActiveView::Outdated,
        key_step(m, Key::Char('o')).pending == Some(CommandView::Outdated),
        key_step(m, Key::Char('u')).pending == Some(CommandView::Update),
        key_step(m, Key::Char('g')).pending == Some(CommandView::Upgrade),
{
}

} // verus!
