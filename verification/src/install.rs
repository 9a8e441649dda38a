//! Keeping the language-server package installed and up to date.
//!
//! The host asks the package registry and installs; this module decides.
//! An `Installer` lives as long as one instance of the plugin and remembers
//! which packages it has seen installed: such a package needs nothing more
//! for the rest of the session. An installation is a short exchange: each `Installation` but
//! the last asks the host for one thing, and the host's reply leads to the
//! next.

use vstd::prelude::*;
use vstd::hash_set::StringHashSet;
use crate::text::same_text;

verus! {

/// The packages seen installed in this session.
pub struct Installer {
    installed: StringHashSet,
}

impl View for Installer {
    type V = Set<Seq<char>>;

    closed spec fn view(&self) -> Set<Seq<char>> {
        self.installed@
    }
}

/// A point in an installation: what the host is asked next, or the result.
#[derive(Debug, PartialEq, Eq)]
pub enum Installation {
    /// Ask which version of the package is installed.
    QueryInstalled,
    /// Ask for the latest published version. `installed` is the version
    /// found installed.
    QueryLatest { installed: Option<String> },
    /// Install `version`.
    Install { installed: Option<String>, version: String },
    /// The installation is over: the package can be used, or the error that
    /// is handed on to the host.
    Done(Result<(), String>),
}

/// What the host shows of an installation: that updates are looked for,
/// that the package is downloaded, and that the work is done.
#[derive(Debug, Clone, Copy, PartialEq, Eq)]
pub enum InstallStatus {
    CheckingForUpdate,
    Downloading,
    Done,
}

/// The mathematical content of an `Installation`.
pub enum InstallationModel {
    QueryInstalled,
    QueryLatest { installed: Option<Seq<char>> },
    Install { installed: Option<Seq<char>>, version: Seq<char> },
    Done(Result<(), Seq<char>>),
}

/// The text that an optional string holds.
pub open spec fn text_of(version: Option<String>) -> Option<Seq<char>> {
    match version {
        Some(v) => Some(v@),
        None => None,
    }
}

impl View for Installation {
    type V = InstallationModel;

    open spec fn view(&self) -> InstallationModel {
        match self {
            Installation::QueryInstalled => InstallationModel::QueryInstalled,
            Installation::QueryLatest { installed } => InstallationModel::QueryLatest {
                installed: text_of(*installed),
            },
            Installation::Install { installed, version } => InstallationModel::Install {
                installed: text_of(*installed),
                version: version@,
            },
            Installation::Done(result) => InstallationModel::Done(install_answer(*result)),
        }
    }
}

/// What the host answers.
#[derive(Debug, PartialEq, Eq)]
pub enum PackageReply {
    /// The installed version, if any, or why it could not be found out.
    InstalledVersion(Result<Option<String>, String>),
    /// The latest published version, or why it could not be found out.
    LatestVersion(Result<String, String>),
    /// Whether the installation went through.
    Installed(Result<(), String>),
}

/// The mathematical content of a `PackageReply`.
pub enum ReplyModel {
    InstalledVersion(Result<Option<Seq<char>>, Seq<char>>),
    LatestVersion(Result<Seq<char>, Seq<char>>),
    Installed(Result<(), Seq<char>>),
}

/// The content of the host's word on the installed version.
pub open spec fn installed_answer(reply: Result<Option<String>, String>) -> Result<
    Option<Seq<char>>,
    Seq<char>,
> {
    match reply {
        Ok(version) => Ok(text_of(version)),
        Err(error) => Err(error@),
    }
}

/// The content of the host's word on the latest version.
pub open spec fn latest_answer(reply: Result<String, String>) -> Result<Seq<char>, Seq<char>> {
    match reply {
        Ok(version) => Ok(version@),
        Err(error) => Err(error@),
    }
}

/// The content of the host's word on an installation.
pub open spec fn install_answer(reply: Result<(), String>) -> Result<(), Seq<char>> {
    match reply {
        Ok(()) => Ok(()),
        Err(error) => Err(error@),
    }
}

impl View for PackageReply {
    type V = ReplyModel;

    open spec fn view(&self) -> ReplyModel {
        match self {
            PackageReply::InstalledVersion(reply) => ReplyModel::InstalledVersion(
                installed_answer(*reply),
            ),
            PackageReply::LatestVersion(reply) => ReplyModel::LatestVersion(latest_answer(*reply)),
            PackageReply::Installed(reply) => ReplyModel::Installed(install_answer(*reply)),
        }
    }
}

/// The status that the host is to show when `pending` has been moved on to
/// `next`: that updates are looked for before it asks for the latest
/// version, that the package is downloaded before it installs, and that the
/// work is done when an installation that showed a status ends well. In
/// every other case it shows nothing new: not for a package that needs
/// nothing, not for an error, not for a reply that changed nothing.
pub open spec fn status_between(
    pending: InstallationModel,
    next: InstallationModel,
) -> Option<InstallStatus> {
    match (pending, next) {
        (InstallationModel::QueryInstalled, InstallationModel::QueryLatest { .. }) => Some(
            InstallStatus::CheckingForUpdate,
        ),
        (InstallationModel::QueryLatest { .. }, InstallationModel::Install { .. }) => Some(
            InstallStatus::Downloading,
        ),
        (InstallationModel::QueryLatest { .. }, InstallationModel::Done(Ok(()))) => Some(
            InstallStatus::Done,
        ),
        (InstallationModel::Install { .. }, InstallationModel::Done(Ok(()))) => Some(
            InstallStatus::Done,
        ),
        _ => None,
    }
}

/// The success that ends an installation.
pub open spec fn usable() -> InstallationModel {
    InstallationModel::Done(Ok(()))
}

/// The step after the host said which version is installed. An error is
/// handed on. A package that was seen installed in this session needs
/// nothing more, whatever version the host found; any other is compared
/// with the registry.
pub open spec fn after_installed_version(
    recorded: Set<Seq<char>>,
    package: Seq<char>,
    reply: Result<Option<Seq<char>>, Seq<char>>,
) -> InstallationModel {
    match reply {
        Err(error) => InstallationModel::Done(Err(error)),
        Ok(installed) => if recorded.contains(package) {
            usable()
        } else {
            InstallationModel::QueryLatest { installed }
        },
    }
}

/// The step after the host said which version is the latest. An error is
/// handed on. The latest version is installed unless it is the one that is
/// installed already.
pub open spec fn after_latest_version(
    installed: Option<Seq<char>>,
    reply: Result<Seq<char>, Seq<char>>,
) -> InstallationModel {
    match reply {
        Err(error) => InstallationModel::Done(Err(error)),
        Ok(latest) => if installed == Some(latest) {
            usable()
        } else {
            InstallationModel::Install { installed, version: latest }
        },
    }
}

/// The step after the host tried to install. A failure is handed on only
/// where no version was installed before; otherwise the old version is used.
pub open spec fn after_install(
    installed: Option<Seq<char>>,
    reply: Result<(), Seq<char>>,
) -> InstallationModel {
    match reply {
        Err(error) => if installed is None {
            InstallationModel::Done(Err(error))
        } else {
            usable()
        },
        Ok(()) => usable(),
    }
}

/// The step that follows `pending` on `reply`. A reply that does not answer
/// what was asked changes nothing.
pub open spec fn advanced(
    recorded: Set<Seq<char>>,
    package: Seq<char>,
    pending: InstallationModel,
    reply: ReplyModel,
) -> InstallationModel {
    match (pending, reply) {
        (
            InstallationModel::QueryInstalled,
            ReplyModel::InstalledVersion(answer),
        ) => after_installed_version(recorded, package, answer),
        (
            InstallationModel::QueryLatest { installed },
            ReplyModel::LatestVersion(answer),
        ) => after_latest_version(installed, answer),
        (InstallationModel::Install { installed, .. }, ReplyModel::Installed(answer)) => {
            after_install(installed, answer)
        },
        _ => pending,
    }
}

/// The packages seen installed once a reply has led to `next`: the package
/// is added where the installation ends well, and nothing changes otherwise.
pub open spec fn recorded_when(
    recorded: Set<Seq<char>>,
    package: Seq<char>,
    next: InstallationModel,
) -> Set<Seq<char>> {
    if next == usable() {
        recorded.insert(package)
    } else {
        recorded
    }
}

/// The packages seen installed once `pending` has been moved on to `next`.
/// An installation that was over already changes nothing.
pub open spec fn recorded_after(
    recorded: Set<Seq<char>>,
    package: Seq<char>,
    pending: InstallationModel,
    next: InstallationModel,
) -> Set<Seq<char>> {
    if pending is Done {
        recorded
    } else {
        recorded_when(recorded, package, next)
    }
}

impl Installation {
    /// The status that the host is to show when `pending` has been moved on
    /// to this step, if it is to show a new one.
    pub fn status_after(&self, pending: &Installation) -> (status: Option<InstallStatus>)
        ensures
            status == status_between(pending@, self@),
    {
        match (pending, self) {
            (Installation::QueryInstalled, Installation::QueryLatest { .. }) => Some(
                InstallStatus::CheckingForUpdate,
            ),
            (Installation::QueryLatest { .. }, Installation::Install { .. }) => Some(
                InstallStatus::Downloading,
            ),
            (Installation::QueryLatest { .. }, Installation::Done(Ok(()))) => Some(
                InstallStatus::Done,
            ),
            (Installation::Install { .. }, Installation::Done(Ok(()))) => Some(
                InstallStatus::Done,
            ),
            _ => None,
        }
    }
}

impl Installer {
    /// An installer that has seen no package yet.
    pub fn new() -> (installer: Installer)
        ensures
            installer@ == Set::<Seq<char>>::empty(),
    {
        Installer { installed: StringHashSet::new() }
    }

    /// Whether `package` was seen installed in this session.
    pub fn is_recorded(&self, package: &str) -> (yes: bool)
        ensures
            yes == self@.contains(package@),
    {
        self.installed.contains(package)
    }

    /// Begins an installation: the installed version is asked for first.
    pub fn start(&self) -> (step: Installation)
        ensures
            step@ == InstallationModel::QueryInstalled,
    {
        Installation::QueryInstalled
    }

    /// Takes the host's word on the installed version. Its error is handed
    /// on. A package seen installed in this session needs nothing more,
    /// whatever version was found; any other is compared with the registry.
    pub fn on_installed_version(
        &self,
        package: &str,
        reply: Result<Option<String>, String>,
    ) -> (step: Installation)
        ensures
            step@ == after_installed_version(self@, package@, installed_answer(reply)),
            self@ == recorded_when(self@, package@, step@),
    {
        match reply {
            Err(error) => Installation::Done(Err(error)),
            Ok(installed) => {
                if self.installed.contains(package) {
                    assert(self@.insert(package@) =~= self@);
                    Installation::Done(Ok(()))
                } else {
                    Installation::QueryLatest { installed }
                }
            },
        }
    }

    /// Takes the host's word on the latest version. Where that version is
    /// the installed one, nothing is installed and the package is recorded.
    pub fn on_latest_version(
        &mut self,
        package: &str,
        installed: Option<String>,
        reply: Result<String, String>,
    ) -> (step: Installation)
        ensures
            step@ == after_latest_version(text_of(installed), latest_answer(reply)),
            final(self)@ == recorded_when(old(self)@, package@, step@),
    {
        match reply {
            Err(error) => Installation::Done(Err(error)),
            Ok(latest) => {
                let same = match &installed {
                    Some(version) => same_text(version.as_str(), latest.as_str()),
                    None => false,
                };
                if same {
                    self.installed.insert(package.to_owned());
                    Installation::Done(Ok(()))
                } else {
                    Installation::Install { installed, version: latest }
                }
            },
        }
    }

    /// Takes the outcome of the installation. The package is recorded
    /// unless the installation failed with no version installed before.
    pub fn on_install_result(
        &mut self,
        package: &str,
        installed: Option<String>,
        reply: Result<(), String>,
    ) -> (step: Installation)
        ensures
            step@ == after_install(text_of(installed), install_answer(reply)),
            final(self)@ == recorded_when(old(self)@, package@, step@),
    {
        match reply {
            Err(error) => {
                if installed.is_none() {
                    return Installation::Done(Err(error));
                }
            },
            Ok(()) => {},
        }
        self.installed.insert(package.to_owned());
        Installation::Done(Ok(()))
    }

    /// Moves an installation on by one reply of the host, and says which
    /// status the host is to show on the way, if a new one. A reply that does
    /// not answer what `pending` asks leaves it as it is.
    pub fn advance(&mut self, package: &str, pending: Installation, reply: PackageReply) -> (next: (
        Installation,
        Option<InstallStatus>,
    ))
        ensures
            next.0@ == advanced(old(self)@, package@, pending@, reply@),
            next.1 == status_between(pending@, next.0@),
            final(self)@ == recorded_after(old(self)@, package@, pending@, next.0@),
    {
        match (pending, reply) {
            (Installation::QueryInstalled, PackageReply::InstalledVersion(answer)) => {
                let step = self.on_installed_version(package, answer);
                let status = step.status_after(&Installation::QueryInstalled);
                (step, status)
            },
            (Installation::QueryLatest { installed }, PackageReply::LatestVersion(answer)) => {
                let step = self.on_latest_version(package, installed, answer);
                let status = match &step {
                    Installation::Install { .. } => Some(InstallStatus::Downloading),
                    Installation::Done(Ok(())) => Some(InstallStatus::Done),
                    _ => None,
                };
                (step, status)
            },
            (Installation::Install { installed, version: _ }, PackageReply::Installed(answer)) => {
                let step = self.on_install_result(package, installed, answer);
                let status = match &step {
                    Installation::Done(Ok(())) => Some(InstallStatus::Done),
                    _ => None,
                };
                (step, status)
            },
            (pending, _) => (pending, None),
        }
    }
}

/// What the host answers in the course of one installation (the later
/// answers count only where they are asked for).
pub struct HostAnswers {
    pub installed: Result<Option<Seq<char>>, Seq<char>>,
    pub latest: Result<Seq<char>, Seq<char>>,
    pub install: Result<(), Seq<char>>,
}

/// An installation under way: the point it is at, the packages seen
/// installed and the statuses shown so far, in order.
pub struct Progress {
    pub step: InstallationModel,
    pub recorded: Set<Seq<char>>,
    pub shown: Seq<InstallStatus>,
}

/// `progress` moved on by one reply.
pub open spec fn moved(progress: Progress, package: Seq<char>, reply: ReplyModel) -> Progress {
    let next = advanced(progress.recorded, package, progress.step, reply);
    Progress {
        step: next,
        recorded: recorded_after(progress.recorded, package, progress.step, next),
        shown: match status_between(progress.step, next) {
            Some(status) => progress.shown.push(status),
            None => progress.shown,
        },
    }
}

/// An installation that has not begun.
pub open spec fn begun(recorded: Set<Seq<char>>) -> Progress {
    Progress { step: InstallationModel::QueryInstalled, recorded, shown: Seq::empty() }
}

/// A whole installation: from the first question through the three answers.
pub open spec fn run(recorded: Set<Seq<char>>, package: Seq<char>, answers: HostAnswers) -> Progress {
    let first = moved(begun(recorded), package, ReplyModel::InstalledVersion(answers.installed));
    let second = moved(first, package, ReplyModel::LatestVersion(answers.latest));
    moved(second, package, ReplyModel::Installed(answers.install))
}

/// Whether the host is asked for the latest version in the course of `run`.
pub open spec fn latest_asked(
    recorded: Set<Seq<char>>,
    package: Seq<char>,
    answers: HostAnswers,
) -> bool {
    moved(
        begun(recorded),
        package,
        ReplyModel::InstalledVersion(answers.installed),
    ).step is QueryLatest
}

/// Whether the host is asked to install in the course of `run`.
pub open spec fn install_asked(
    recorded: Set<Seq<char>>,
    package: Seq<char>,
    answers: HostAnswers,
) -> bool {
    let first = moved(begun(recorded), package, ReplyModel::InstalledVersion(answers.installed));
    moved(first, package, ReplyModel::LatestVersion(answers.latest)).step is Install
}

/// Every installation is over once the host has answered the three
/// questions.
pub proof fn law_installation_ends(
    recorded: Set<Seq<char>>,
    package: Seq<char>,
    answers: HostAnswers,
)
    ensures
        run(recorded, package, answers).step is Done,
{
}

/// A package seen installed in this session needs nothing more: once the
/// host has answered the first question, whatever version it found, the
/// installation ends well. The registry is not asked, nothing is installed,
/// no status is shown and the recorded packages stay as they are.
pub proof fn law_recorded_package_needs_nothing(
    recorded: Set<Seq<char>>,
    package: Seq<char>,
    answers: HostAnswers,
)
    requires
        recorded.contains(package),
        answers.installed is Ok,
    ensures
        !latest_asked(recorded, package, answers),
        !install_asked(recorded, package, answers),
        run(recorded, package, answers).step == usable(),
        run(recorded, package, answers).recorded == recorded,
        run(recorded, package, answers).shown == Seq::<InstallStatus>::empty(),
{
}

/// Where the installed version is the latest one, the host is not asked to
/// install, the installation ends well and the package is recorded.
pub proof fn law_up_to_date_installs_nothing(
    recorded: Set<Seq<char>>,
    package: Seq<char>,
    answers: HostAnswers,
    version: Seq<char>,
)
    requires
        answers.installed == Ok::<Option<Seq<char>>, Seq<char>>(Some(version)),
        answers.latest == Ok::<Seq<char>, Seq<char>>(version),
    ensures
        !install_asked(recorded, package, answers),
        run(recorded, package, answers).step == usable(),
        run(recorded, package, answers).recorded.contains(package),
        !recorded.contains(package) ==> run(recorded, package, answers).shown == seq![
            InstallStatus::CheckingForUpdate,
            InstallStatus::Done,
        ],
{
    if !recorded.contains(package) {
        assert(run(recorded, package, answers).shown =~= seq![
            InstallStatus::CheckingForUpdate,
            InstallStatus::Done,
        ]);
    }
}

/// Where a package not seen in this session has another version than the
/// latest, or none, and the installation goes through, the statuses shown
/// are, in this order: updates are looked for, the package is downloaded,
/// the work is done. The first is shown before the registry is asked, the
/// second before the host installs.
pub proof fn law_statuses_of_an_installation(
    recorded: Set<Seq<char>>,
    package: Seq<char>,
    answers: HostAnswers,
    installed: Option<Seq<char>>,
    version: Seq<char>,
)
    requires
        !recorded.contains(package),
        answers.installed == Ok::<Option<Seq<char>>, Seq<char>>(installed),
        answers.latest == Ok::<Seq<char>, Seq<char>>(version),
        installed != Some(version),
        answers.install == Ok::<(), Seq<char>>(()),
    ensures
        install_asked(recorded, package, answers),
        run(recorded, package, answers).step == usable(),
        run(recorded, package, answers).recorded == recorded.insert(package),
        run(recorded, package, answers).shown == seq![
            InstallStatus::CheckingForUpdate,
            InstallStatus::Downloading,
            InstallStatus::Done,
        ],
        status_between(
            InstallationModel::QueryInstalled,
            InstallationModel::QueryLatest { installed },
        ) == Some(InstallStatus::CheckingForUpdate),
        status_between(
            InstallationModel::QueryLatest { installed },
            InstallationModel::Install { installed, version },
        ) == Some(InstallStatus::Downloading),
{
    assert(run(recorded, package, answers).shown =~= seq![
        InstallStatus::CheckingForUpdate,
        InstallStatus::Downloading,
        InstallStatus::Done,
    ]);
}

/// Where a package not seen in this session has no version installed and
/// the installation fails, the failure is the result, and the package is not
/// recorded.
pub proof fn law_first_install_failure_is_reported(
    recorded: Set<Seq<char>>,
    package: Seq<char>,
    answers: HostAnswers,
    version: Seq<char>,
    error: Seq<char>,
)
    requires
        !recorded.contains(package),
        answers.installed == Ok::<Option<Seq<char>>, Seq<char>>(None),
        answers.latest == Ok::<Seq<char>, Seq<char>>(version),
        answers.install == Err::<(), Seq<char>>(error),
    ensures
        install_asked(recorded, package, answers),
        run(recorded, package, answers).step == InstallationModel::Done(Err(error)),
        run(recorded, package, answers).recorded == recorded,
{
}

/// Where a version was installed and the installation of the latest one
/// fails, the installation still ends well and the package is recorded.
pub proof fn law_failed_upgrade_keeps_old_version(
    recorded: Set<Seq<char>>,
    package: Seq<char>,
    answers: HostAnswers,
    old_version: Seq<char>,
    version: Seq<char>,
    error: Seq<char>,
)
    requires
        answers.installed == Ok::<Option<Seq<char>>, Seq<char>>(Some(old_version)),
        answers.latest == Ok::<Seq<char>, Seq<char>>(version),
        answers.install == Err::<(), Seq<char>>(error),
    ensures
        run(recorded, package, answers).step == usable(),
        run(recorded, package, answers).recorded.contains(package),
        run(recorded, package, answers).recorded == recorded.insert(package),
{
    if recorded.contains(package) {
        assert(recorded.insert(package) =~= recorded);
    }
}

/// A question that the host cannot answer ends the installation with the
/// host's error: the question for the installed version always, the one for
/// the latest version wherever it is asked. Nothing is installed or recorded.
pub proof fn law_query_errors_are_reported(
    recorded: Set<Seq<char>>,
    package: Seq<char>,
    answers: HostAnswers,
    error: Seq<char>,
)
    requires
        answers.installed == Err::<Option<Seq<char>>, Seq<char>>(error) || (latest_asked(
            recorded,
            package,
            answers,
        ) && answers.latest == Err::<Seq<char>, Seq<char>>(error)),
    ensures
        !install_asked(recorded, package, answers),
        run(recorded, package, answers).step == InstallationModel::Done(Err(error)),
        run(recorded, package, answers).recorded == recorded,
{
}

/// The status that says the work is done is shown only at the end of an
/// installation that ended well, and only after another status.
pub proof fn law_done_is_shown_last(
    recorded: Set<Seq<char>>,
    package: Seq<char>,
    answers: HostAnswers,
)
    ensures
        ({
            let shown = run(recorded, package, answers).shown;
            forall|i: int|
                0 <= i < shown.len() && shown[i] == InstallStatus::Done ==> {
                    &&& i > 0
                    &&& i == shown.len() - 1
                    &&& run(recorded, package, answers).step == usable()
                }
        }),
{
}

/// A package recorded once stays recorded.
pub proof fn law_recorded_packages_stay(
    recorded: Set<Seq<char>>,
    package: Seq<char>,
    answers: HostAnswers,
)
    ensures
        recorded.subset_of(run(recorded, package, answers).recorded),
{
}

} // verus!
