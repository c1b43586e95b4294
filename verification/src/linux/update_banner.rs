//! The banner that offers a new version.
//!
//! The core decides what is available; the banner only shows its phase and
//! remembers which version was turned down.
use vstd::prelude::*;

use crate::text::{clone_opt, opt_view, same, same_opt};

verus! {

/// Where an update stands.
#[derive(Debug, Clone, Copy, PartialEq, Eq, Structural)]
pub enum ClientUpdatePhase {
    Idle,
    Checking,
    UpToDate,
    Available,
    Installing,
    Installed,
    Failed,
}

/// The state of updates as the core reports it.
#[derive(Debug, PartialEq, Eq)]
pub struct ClientUpdateStatus {
    pub phase: ClientUpdatePhase,
    pub current_version: String,
    pub version: Option<String>,
    pub message: Option<String>,
    pub release_url: Option<String>,
    pub download_url: Option<String>,
    pub asset_name: Option<String>,
    pub restart_required: bool,
}

impl Clone for ClientUpdateStatus {
    fn clone(&self) -> (r: Self)
        ensures
            r == *self,
    {
        ClientUpdateStatus {
            phase: self.phase,
            current_version: self.current_version.clone(),
            version: clone_opt(&self.version),
            message: clone_opt(&self.message),
            release_url: clone_opt(&self.release_url),
            download_url: clone_opt(&self.download_url),
            asset_name: clone_opt(&self.asset_name),
            restart_required: self.restart_required,
        }
    }
}

/// The view of a [`ClientUpdateStatus`].
pub struct UpdateStatusView {
    pub phase: ClientUpdatePhase,
    pub current_version: Seq<char>,
    pub version: Option<Seq<char>>,
    pub message: Option<Seq<char>>,
    pub release_url: Option<Seq<char>>,
    pub download_url: Option<Seq<char>>,
    pub asset_name: Option<Seq<char>>,
    pub restart_required: bool,
}

impl View for ClientUpdateStatus {
    type V = UpdateStatusView;

    open spec fn view(&self) -> UpdateStatusView {
        UpdateStatusView {
            phase: self.phase,
            current_version: self.current_version@,
            version: opt_view(self.version),
            message: opt_view(self.message),
            release_url: opt_view(self.release_url),
            download_url: opt_view(self.download_url),
            asset_name: opt_view(self.asset_name),
            restart_required: self.restart_required,
        }
    }
}

/// Tells whether two states are the same.
fn same_status(a: &ClientUpdateStatus, b: &ClientUpdateStatus) -> (r: bool)
    ensures
        r == (a@ == b@),
{
    a.phase == b.phase && same(a.current_version.as_str(), b.current_version.as_str()) && same_opt(
        &a.version,
        &b.version,
    ) && same_opt(&a.message, &b.message) && same_opt(&a.release_url, &b.release_url) && same_opt(
        &a.download_url,
        &b.download_url,
    ) && same_opt(&a.asset_name, &b.asset_name) && a.restart_required == b.restart_required
}

/// The text of the banner, to be put into the user's language.
#[derive(Debug, PartialEq, Eq)]
pub enum BannerText {
    Available { version: String },
    Installing,
    InstalledRestart,
    Failed { message: String },
    Checking,
}

/// The view of a [`BannerText`].
pub enum BannerTextView {
    Available { version: Seq<char> },
    Installing,
    InstalledRestart,
    Failed { message: Seq<char> },
    Checking,
}

impl View for BannerText {
    type V = BannerTextView;

    open spec fn view(&self) -> BannerTextView {
        match *self {
            BannerText::Available { version } => BannerTextView::Available { version: version@ },
            BannerText::Installing => BannerTextView::Installing,
            BannerText::InstalledRestart => BannerTextView::InstalledRestart,
            BannerText::Failed { message } => BannerTextView::Failed { message: message@ },
            BannerText::Checking => BannerTextView::Checking,
        }
    }
}

/// The label of the banner's button.
#[derive(Debug, Clone, Copy, PartialEq, Eq, Structural)]
pub enum BannerLabel {
    InstallNow,
    Installing,
    InstalledRestart,
    Retry,
    Checking,
}

/// What the banner shows. The button and the way to dismiss the banner are
/// offered together.
#[derive(Debug, PartialEq, Eq)]
pub struct BannerContent {
    pub text: BannerText,
    pub action: BannerLabel,
    pub actionable: bool,
}

/// The view of a [`BannerContent`].
pub struct BannerContentView {
    pub text: BannerTextView,
    pub action: BannerLabel,
    pub actionable: bool,
}

impl View for BannerContent {
    type V = BannerContentView;

    open spec fn view(&self) -> BannerContentView {
        BannerContentView { text: self.text@, action: self.action, actionable: self.actionable }
    }
}

/// The string, or an empty one.
pub open spec fn or_empty(s: Option<Seq<char>>) -> Seq<char> {
    match s {
        Some(t) => t,
        None => Seq::<char>::empty(),
    }
}

/// What the banner shows for a state; nothing while there is nothing to do.
pub open spec fn content_of(status: UpdateStatusView) -> Option<BannerContentView> {
    match status.phase {
        ClientUpdatePhase::Available => Some(
            BannerContentView {
                text: BannerTextView::Available { version: or_empty(status.version) },
                action: BannerLabel::InstallNow,
                actionable: true,
            },
        ),
        ClientUpdatePhase::Installing => Some(
            BannerContentView {
                text: BannerTextView::Installing,
                action: BannerLabel::Installing,
                actionable: false,
            },
        ),
        ClientUpdatePhase::Installed => Some(
            BannerContentView {
                text: BannerTextView::InstalledRestart,
                action: BannerLabel::InstalledRestart,
                actionable: false,
            },
        ),
        ClientUpdatePhase::Failed => Some(
            BannerContentView {
                text: BannerTextView::Failed { message: or_empty(status.message) },
                action: BannerLabel::Retry,
                actionable: true,
            },
        ),
        ClientUpdatePhase::Checking => Some(
            BannerContentView {
                text: BannerTextView::Checking,
                action: BannerLabel::Checking,
                actionable: false,
            },
        ),
        ClientUpdatePhase::UpToDate => None,
        ClientUpdatePhase::Idle => None,
    }
}

fn content_for(status: &ClientUpdateStatus) -> (r: Option<BannerContent>)
    ensures
        match r {
            Some(c) => content_of(status@) == Some(c@),
            None => content_of(status@) is None,
        },
{
    match status.phase {
        ClientUpdatePhase::Available => Some(
            BannerContent {
                text: BannerText::Available {
                    version: match &status.version {
                        Some(v) => v.clone(),
                        None => String::new(),
                    },
                },
                action: BannerLabel::InstallNow,
                actionable: true,
            },
        ),
        ClientUpdatePhase::Installing => Some(
            BannerContent {
                text: BannerText::Installing,
                action: BannerLabel::Installing,
                actionable: false,
            },
        ),
        ClientUpdatePhase::Installed => Some(
            BannerContent {
                text: BannerText::InstalledRestart,
                action: BannerLabel::InstalledRestart,
                actionable: false,
            },
        ),
        ClientUpdatePhase::Failed => Some(
            BannerContent {
                text: BannerText::Failed {
                    message: match &status.message {
                        Some(m) => m.clone(),
                        None => String::new(),
                    },
                },
                action: BannerLabel::Retry,
                actionable: true,
            },
        ),
        ClientUpdatePhase::Checking => Some(
            BannerContent {
                text: BannerText::Checking,
                action: BannerLabel::Checking,
                actionable: false,
            },
        ),
        ClientUpdatePhase::UpToDate => None,
        ClientUpdatePhase::Idle => None,
    }
}

/// The banner: what it shows, which version was turned down and the state it
/// was last given. The content stays behind while the banner is hidden.
#[derive(Debug)]
pub struct UpdateBanner {
    visible: bool,
    content: Option<BannerContent>,
    dismissed_version: Option<String>,
    last_rendered: Option<ClientUpdateStatus>,
}

/// The view of an [`UpdateBanner`].
pub struct UpdateBannerView {
    pub visible: bool,
    pub content: Option<BannerContentView>,
    pub dismissed_version: Option<Seq<char>>,
    pub last_rendered: Option<UpdateStatusView>,
}

/// The view of an optional content.
pub open spec fn content_view(c: Option<BannerContent>) -> Option<BannerContentView> {
    match c {
        Some(c) => Some(c@),
        None => None,
    }
}

/// The view of an optional state.
pub open spec fn status_view(s: Option<ClientUpdateStatus>) -> Option<UpdateStatusView> {
    match s {
        Some(s) => Some(s@),
        None => None,
    }
}

impl View for UpdateBanner {
    type V = UpdateBannerView;

    closed spec fn view(&self) -> UpdateBannerView {
        UpdateBannerView {
            visible: self.visible,
            content: content_view(self.content),
            dismissed_version: opt_view(self.dismissed_version),
            last_rendered: status_view(self.last_rendered),
        }
    }
}

/// The banner before any state is known.
pub open spec fn blank_banner() -> UpdateBannerView {
    UpdateBannerView { visible: false, content: None, dismissed_version: None, last_rendered: None }
}

/// The banner after a state. The same state again changes nothing; a version
/// that was turned down is remembered and stays hidden.
pub open spec fn applied(banner: UpdateBannerView, status: UpdateStatusView) -> UpdateBannerView {
    let version = or_empty(status.version);
    if banner.last_rendered == Some(status) {
        banner
    } else if version.len() > 0 && banner.dismissed_version == Some(version) {
        UpdateBannerView { visible: false, last_rendered: Some(status), ..banner }
    } else {
        UpdateBannerView {
            visible: content_of(status) is Some,
            content: if content_of(status) is Some {
                content_of(status)
            } else {
                banner.content
            },
            last_rendered: Some(status),
            ..banner
        }
    }
}

/// What the main button asks of the core.
#[derive(Debug, Clone, Copy, PartialEq, Eq, Structural)]
pub enum UpdateAction {
    Install,
    Check,
    Nothing,
}

/// Returns what the main button asks for in a phase.
pub fn handle_update_action(phase: ClientUpdatePhase) -> (r: UpdateAction)
    ensures
        r == (match phase {
            ClientUpdatePhase::Available => UpdateAction::Install,
            ClientUpdatePhase::Failed => UpdateAction::Check,
            _ => UpdateAction::Nothing,
        }),
{
    match phase {
        ClientUpdatePhase::Available => UpdateAction::Install,
        ClientUpdatePhase::Failed => UpdateAction::Check,
        _ => UpdateAction::Nothing,
    }
}

impl UpdateBanner {
    /// A hidden banner.
    pub fn new() -> (r: Self)
        ensures
            r@ == blank_banner(),
    {
        UpdateBanner { visible: false, content: None, dismissed_version: None, last_rendered: None }
    }

    /// Shows a state.
    pub fn apply(&mut self, status: &ClientUpdateStatus)
        ensures
            final(self)@ == applied(old(self)@, status@),
    {
        if let Some(last) = &self.last_rendered {
            if same_status(last, status) {
                return ;
            }
        }
        self.last_rendered = Some(status.clone());
        let version = match &status.version {
            Some(v) => v.clone(),
            None => String::new(),
        };
        if let Some(dismissed) = &self.dismissed_version {
            if !version.as_str().is_empty() && same(dismissed.as_str(), version.as_str()) {
                self.visible = false;
                return ;
            }
        }
        match content_for(status) {
            Some(content) => {
                self.visible = true;
                self.content = Some(content);
            },
            None => {
                self.visible = false;
            },
        }
    }

    /// Hides the banner and remembers the version that was turned down.
    pub fn dismiss(&mut self, version: Option<String>)
        ensures
            final(self)@ == (UpdateBannerView {
                visible: false,
                dismissed_version: opt_view(version),
                ..old(self)@
            }),
    {
        self.dismissed_version = version;
        self.visible = false;
    }

    /// The version of the state that was last given.
    pub fn current_version(&self) -> (r: Option<String>)
        ensures
            opt_view(r) == (match self@.last_rendered {
                Some(status) => status.version,
                None => None,
            }),
    {
        match &self.last_rendered {
            Some(status) => clone_opt(&status.version),
            None => None,
        }
    }

    /// Tells whether the banner is shown.
    pub fn is_visible(&self) -> (r: bool)
        ensures
            r == self@.visible,
    {
        self.visible
    }

    /// What the banner shows, or would show.
    pub fn content(&self) -> (r: &Option<BannerContent>)
        ensures
            content_view(*r) == self@.content,
    {
        &self.content
    }
}

impl Default for UpdateBanner {
    fn default() -> (r: Self)
        ensures
            r@ == blank_banner(),
    {
        UpdateBanner::new()
    }
}

/// Applying a state twice is applying it once.
pub proof fn law_same_state_is_shown_once(banner: UpdateBannerView, status: UpdateStatusView)
    ensures
        applied(applied(banner, status), status) == applied(banner, status),
{
}

/// The banner after a series of states.
pub open spec fn applied_all(banner: UpdateBannerView, states: Seq<UpdateStatusView>) ->
    UpdateBannerView
    decreases states.len(),
{
    if states.len() == 0 {
        banner
    } else {
        applied(applied_all(banner, states.drop_last()), states.last())
    }
}

/// A version that was turned down is not announced again, whatever other
/// states are reported in between.
pub proof fn law_dismissed_version_stays_hidden(
    banner: UpdateBannerView,
    version: Seq<char>,
    states: Seq<UpdateStatusView>,
)
    requires
        version.len() > 0,
        !banner.visible,
        banner.dismissed_version == Some(version),
    ensures
        applied_all(banner, states).dismissed_version == Some(version),
        states.len() > 0 && states.last().version == Some(version) ==> !applied_all(
            banner,
            states,
        ).visible,
{
    lemma_dismissed_version_is_kept(banner, version, states);
    if states.len() > 0 {
        lemma_dismissed_version_is_kept(banner, version, states.drop_last());
    }
}

proof fn lemma_dismissed_version_is_kept(
    banner: UpdateBannerView,
    version: Seq<char>,
    states: Seq<UpdateStatusView>,
)
    requires
        version.len() > 0,
        !banner.visible,
        banner.dismissed_version == Some(version),
    ensures
        ({
            let end = applied_all(banner, states);
            &&& end.dismissed_version == Some(version)
            &&& end.visible ==> (end.last_rendered matches Some(s) && s.version != Some(version))
        }),
    decreases states.len(),
{
    if states.len() > 0 {
        lemma_dismissed_version_is_kept(banner, version, states.drop_last());
    }
}

} // verus!
