//! What the interface shows, worked out from its state; drawing it is left
//! to the terminal front end.

use vstd::prelude::*;

use crate::app::{visible_count, visible_of, ActiveView, App, AppModel, InstalledFilter};
use crate::items::{ints, kind_label, lemma_visible_indices, item_views, search_key, ItemView};
use crate::text::{decimal, padded, push_decimal, push_padded};
use crate::theme::{
    accent_style_of, header_style_of, selection_style_of, sidebar_style_of, StyleSpec,
};

verus! {

/// One line of the sidebar, and its style where it has one.
pub struct MenuEntry {
    pub label: String,
    pub style: Option<StyleSpec>,
}

/// Everything that one frame shows.
pub struct Screen {
    pub header_style: StyleSpec,
    pub menu: Vec<MenuEntry>,
    pub search_hint: String,
    pub search_style: StyleSpec,
    /// The visible rows, or the one placeholder line when there are none.
    pub rows: Vec<String>,
    pub rows_placeholder: bool,
    pub list_title: String,
    pub status: String,
    pub selected: Option<usize>,
    pub selection_style: StyleSpec,
    pub help: String,
    pub help_style: StyleSpec,
    /// The popup's text, when it is open.
    pub popup: Option<String>,
}

/// A sidebar label: the key in brackets, the label, and a star when marked.
pub open spec fn sidebar_text(key: Seq<char>, label: Seq<char>, active: bool) -> Seq<char> {
    if active {
        "["@ + key + "] "@ + label + " *"@
    } else {
        "["@ + key + "] "@ + label
    }
}

/// A sidebar label: the key in brackets, the label, and a star when marked.
pub fn sidebar_label(key: &str, label: &str, active: bool) -> (r: String)
    ensures
        r@ == sidebar_text(key@, label@, active),
{
    let mut r = String::from_str("[");
    r.append(key);
    r.append("] ");
    r.append(label);
    if active {
        r.append(" *");
    }
    r
}

/// The title of the list that is shown.
pub open spec fn list_title_of(v: ActiveView) -> Seq<char> {
    match v {
        ActiveView::Installed => "Installed Packages"@,
        ActiveView::Outdated => "Outdated Packages"@,
    }
}

/// The line of a row: the name padded to 28 characters, the kind's mark
/// padded to 5, then the version.
pub open spec fn row_text(it: ItemView) -> Seq<char> {
    padded(it.name, 28) + " "@ + padded(kind_label(it.kind), 5) + " "@ + it.version
}

/// The lines of the visible rows, in order.
pub open spec fn row_texts(m: AppModel) -> Seq<Seq<char>> {
    visible_of(m).map_values(|i: int| row_text(m.items[i]))
}

/// What the search box says.
pub open spec fn search_hint_of(m: AppModel) -> Seq<char> {
    if m.search_mode {
        "/"@ + m.query
    } else if m.query.len() == 0 {
        "Press / to search"@
    } else {
        "Filter: "@ + m.query
    }
}

/// The title of the list box: which list, and how many of its rows show.
pub open spec fn list_box_title(m: AppModel) -> Seq<char> {
    list_title_of(m.active_view) + " ("@ + decimal(visible_count(m)) + "/"@ + decimal(m.items.len()) + ")"@
}

/// The sidebar: the three installed lists, a blank line, the outdated list,
/// then the three upgrade functions; the list that is shown is marked.
pub open spec fn menu_of(m: AppModel) -> Seq<(Seq<char>, Option<StyleSpec>)> {
    let installed = m.active_view == ActiveView::Installed;
    let all = installed && m.filter == InstalledFilter::All;
    let formula = installed && m.filter == InstalledFilter::Formula;
    let cask = installed && m.filter == InstalledFilter::Cask;
    let outdated = m.active_view == ActiveView::Outdated;
    seq![
        (sidebar_text("1"@, "Installed (All)"@, all), Some(sidebar_style_of(m.theme, all))),
        (sidebar_text("2"@, "Installed (Formulae)"@, formula), Some(sidebar_style_of(m.theme, formula))),
        (sidebar_text("3"@, "Installed (Casks)"@, cask), Some(sidebar_style_of(m.theme, cask))),
        (" "@, None),
        (sidebar_text("o"@, "Outdated"@, outdated), Some(sidebar_style_of(m.theme, outdated))),
        ("u Update"@, Some(sidebar_style_of(m.theme, false))),
        ("g Upgrade"@, Some(sidebar_style_of(m.theme, false))),
        ("G Upgrade selected"@, Some(sidebar_style_of(m.theme, false))),
    ]
}

/// The sidebar entries as characters and styles.
pub open spec fn menu_views(v: Seq<MenuEntry>) -> Seq<(Seq<char>, Option<StyleSpec>)> {
    v.map_values(|e: MenuEntry| (e.label@, e.style))
}

/// The help line.
pub open spec fn help_text() -> Seq<char> {
    "q: Quit  j/k or Arrows: Move  i: Info Popup  /: Search  Enter/Esc: End Search  1/2/3: Installed Filters  o: Outdated  u: Update  g: Upgrade all  G: Upgrade selected  r: Refresh"@
}

fn entry(label: String, style: Option<StyleSpec>) -> (e: MenuEntry)
    ensures
        e.label@ == label@,
        e.style == style,
{
    MenuEntry { label, style }
}

impl App {
    /// The title of the list that is shown.
    pub fn current_list_title(&self) -> (r: &'static str)
        ensures
            r@ == list_title_of(self.active_view),
    {
        match self.active_view {
            ActiveView::Installed => "Installed Packages",
            ActiveView::Outdated => "Outdated Packages",
        }
    }

    fn menu(&self) -> (r: Vec<MenuEntry>)
        ensures
            menu_views(r@) == menu_of(self@),
    {
        let installed = self.active_view == ActiveView::Installed;
        let all = installed && self.filter == InstalledFilter::All;
        let formula = installed && self.filter == InstalledFilter::Formula;
        let cask = installed && self.filter == InstalledFilter::Cask;
        let outdated = self.active_view == ActiveView::Outdated;
        let t = self.theme;
        let mut r: Vec<MenuEntry> = Vec::new();
        r.push(entry(sidebar_label("1", "Installed (All)", all), Some(t.sidebar_style(all))));
        r.push(entry(sidebar_label("2", "Installed (Formulae)", formula), Some(t.sidebar_style(formula))));
        r.push(entry(sidebar_label("3", "Installed (Casks)", cask), Some(t.sidebar_style(cask))));
        r.push(entry(String::from_str(" "), None));
        r.push(entry(sidebar_label("o", "Outdated", outdated), Some(t.sidebar_style(outdated))));
        r.push(entry(String::from_str("u Update"), Some(t.sidebar_style(false))));
        r.push(entry(String::from_str("g Upgrade"), Some(t.sidebar_style(false))));
        r.push(entry(String::from_str("G Upgrade selected"), Some(t.sidebar_style(false))));
        assert(menu_views(r@) =~= menu_of(self@));
        r
    }

    fn rows(&self) -> (r: Vec<String>)
        ensures
            crate::text::views(r@) == row_texts(self@),
    {
        let visible = self.visible_item_indices();
        proof {
            lemma_visible_indices(item_views(self.items@), search_key(self.search_query@));
        }
        let mut r: Vec<String> = Vec::new();
        let mut k: usize = 0;
        while k < visible.len()
            invariant
                k <= visible@.len(),
                ints(visible@) == visible_of(self@),
                forall|j: int| 0 <= j < visible@.len() ==> 0 <= #[trigger] visible_of(self@)[j] < self.items@.len(),
                crate::text::views(r@) =~= visible_of(self@).take(k as int).map_values(|i: int| row_text(self@.items[i])),
            decreases visible.len() - k,
        {
            let idx = visible[k];
            assert(visible_of(self@)[k as int] == idx as int);
            let item = &self.items[idx];
            let mut line = String::new();
            push_padded(&mut line, item.name.as_str(), 28);
            line.append(" ");
            push_padded(&mut line, item.kind.label(), 5);
            line.append(" ");
            line.append(item.version.as_str());
            assert(line@ == row_text(self@.items[idx as int]));
            let ghost before = r@;
            r.push(line);
            assert(crate::text::views(r@) =~= crate::text::views(before).push(line@));
            assert(visible_of(self@).take(k + 1) =~= visible_of(self@).take(k as int).push(idx as int));
            k += 1;
        }
        assert(visible_of(self@).take(visible@.len() as int) =~= visible_of(self@));
        r
    }

    /// Everything that one frame shows.
    pub fn screen(&self) -> (s: Screen)
        ensures
            s.header_style == header_style_of(self.theme),
            menu_views(s.menu@) == menu_of(self@),
            s.search_hint@ == search_hint_of(self@),
            s.search_style == accent_style_of(self.theme),
            s.rows_placeholder == (visible_count(self@) == 0),
            visible_count(self@) == 0 ==> crate::text::views(s.rows@) == seq!["No matching packages"@],
            visible_count(self@) > 0 ==> crate::text::views(s.rows@) == row_texts(self@),
            s.list_title@ == list_box_title(self@),
            s.status@ == self.status_line@,
            s.selected == self.selected,
            s.selection_style == selection_style_of(self.theme),
            s.help@ == help_text(),
            s.help_style == accent_style_of(self.theme),
            match s.popup {
                Some(p) => self.show_info_popup && p@ == self.info_popup_text@,
                None => !self.show_info_popup,
            },
    {
        let search_hint = if self.search_mode {
            let mut h = String::from_str("/");
            h.append(self.search_query.as_str());
            h
        } else if self.search_query.as_str().is_empty() {
            String::from_str("Press / to search")
        } else {
            let mut h = String::from_str("Filter: ");
            h.append(self.search_query.as_str());
            h
        };
        let mut rows = self.rows();
        let visible = rows.len();
        assert(crate::text::views(rows@).len() == rows@.len());
        assert(row_texts(self@).len() == visible_of(self@).len());
        let rows_placeholder = visible == 0;
        if rows_placeholder {
            rows = vec![String::from_str("No matching packages")];
            assert(crate::text::views(rows@) =~= seq!["No matching packages"@]);
        }
        let mut list_title = String::from_str(self.current_list_title());
        list_title.append(" (");
        push_decimal(&mut list_title, visible);
        list_title.append("/");
        push_decimal(&mut list_title, self.items.len());
        list_title.append(")");
        let popup = if self.show_info_popup {
            Some(self.info_popup_text.clone())
        } else {
            None
        };
        Screen {
            header_style: self.theme.header_style(),
            menu: self.menu(),
            search_hint,
            search_style: self.theme.accent_style(),
            rows,
            rows_placeholder,
            list_title,
            status: self.status_line.clone(),
            selected: self.selected,
            selection_style: self.theme.selection_style(),
            help: String::from_str(
                "q: Quit  j/k or Arrows: Move  i: Info Popup  /: Search  Enter/Esc: End Search  1/2/3: Installed Filters  o: Outdated  u: Update  g: Upgrade all  G: Upgrade selected  r: Refresh",
            ),
            help_style: self.theme.accent_style(),
            popup,
        }
    }
}

} // verus!
