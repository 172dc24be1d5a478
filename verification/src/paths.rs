//! Where the service keeps its files.

use vstd::prelude::*;

verus! {

pub const COMPANY_NAME: &'static str = "The Streamer Company SpA.";

pub const SERVICE_NAME: &'static str = "EW Backup Service";

pub const CONFIG_DIR_NAME: &'static str = "Configs";

pub const CONFIG_FILE_NAME: &'static str = "config.ini";

pub const BACKUPS_DIR_NAME: &'static str = "Backups";

/// The file that is written at the end of each backup.
pub const LAST_RUN_FILE_NAME: &'static str = "last_run.ebg";

/// A path: the names that lead from a base directory to a file or a directory.
#[derive(Debug)]
pub struct Location<B> {
    pub base: B,
    pub names: Vec<String>,
}

impl<B> Location<B> {
    /// The names that lead there from the base.
    pub open spec fn steps(self) -> Seq<Seq<char>> {
        self.names.deep_view()
    }

    /// The path one name further.
    pub fn join(self, name: &str) -> (r: Location<B>)
        ensures
            r.base == self.base,
            r.steps() == self.steps().push(name@),
    {
        let mut r = self;
        r.names.push(name.to_string());
        proof {
            assert(r.steps() =~= self.steps().push(name@));
        }
        r
    }
}

/// The user has no directory for local data.
#[derive(Debug, Clone, Copy, PartialEq, Eq, Structural)]
pub struct NoLocalDataDir;

/// The file that holds the configuration, and the directory that has to be there first.
#[derive(Debug)]
pub struct ConfigLocation<B> {
    pub dir: Location<B>,
    pub file_name: String,
}

/// Whether `r` is the directory that the given names lead to from the user's local data, or says
/// that there is no local data.
pub open spec fn is_under_local_data<B>(
    data_local_dir: Option<B>,
    steps: Seq<Seq<char>>,
    r: Result<Location<B>, NoLocalDataDir>,
) -> bool {
    match data_local_dir {
        Some(base) => r is Ok && r->Ok_0.base == base && r->Ok_0.steps() == steps,
        None => r is Err,
    }
}

/// A path is the names that lead to it, one after the other, from the directory that it starts
/// from; without that directory there is none.
pub proof fn law_paths_lead_from_local_data<B>(
    data_local_dir: Option<B>,
    steps: Seq<Seq<char>>,
    r: Result<Location<B>, NoLocalDataDir>,
)
    requires
        is_under_local_data(data_local_dir, steps, r),
    ensures
        r is Err <==> data_local_dir is None,
        r matches Ok(l) ==> {
            &&& data_local_dir == Some(l.base)
            &&& l.names.len() == steps.len()
            &&& forall|i: int| 0 <= i < steps.len() ==> (#[trigger] l.names[i])@ == steps[i]
        },
{
    if r is Ok {
        let l = r->Ok_0;
        assert forall|i: int| 0 <= i < steps.len() implies (#[trigger] l.names[i])@ == steps[i] by {
            assert(l.steps()[i] == l.names[i]@);
        }
    }
}

/// The directory of the service in the user's local data.
pub fn get_service_base_path<B>(data_local_dir: Option<B>) -> (r: Result<
    Location<B>,
    NoLocalDataDir,
>)
    ensures
        is_under_local_data(data_local_dir, seq![COMPANY_NAME@, SERVICE_NAME@], r),
{
    match data_local_dir {
        Some(base) => {
            let root = Location { base, names: Vec::new() };
            let r = root.join(COMPANY_NAME).join(SERVICE_NAME);
            proof {
                assert(r.steps() =~= seq![COMPANY_NAME@, SERVICE_NAME@]);
            }
            Ok(r)
        },
        None => Err(NoLocalDataDir),
    }
}

/// The configuration file of the service.
pub fn get_config_path<B>(data_local_dir: Option<B>) -> (r: Result<
    ConfigLocation<B>,
    NoLocalDataDir,
>)
    ensures
        is_under_local_data(
            data_local_dir,
            seq![COMPANY_NAME@, SERVICE_NAME@, CONFIG_DIR_NAME@],
            match r {
                Ok(c) => Ok(c.dir),
                Err(e) => Err(e),
            },
        ),
        r matches Ok(c) ==> c.file_name@ == CONFIG_FILE_NAME@,
{
    match get_service_base_path(data_local_dir) {
        Ok(service_base) => {
            let dir = service_base.join(CONFIG_DIR_NAME);
            proof {
                assert(dir.steps() =~= seq![COMPANY_NAME@, SERVICE_NAME@, CONFIG_DIR_NAME@]);
            }
            Ok(ConfigLocation { dir, file_name: CONFIG_FILE_NAME.to_string() })
        },
        Err(e) => Err(e),
    }
}

/// The directory that holds the backups.
pub fn get_backups_path<B>(data_local_dir: Option<B>) -> (r: Result<Location<B>, NoLocalDataDir>)
    ensures
        is_under_local_data(
            data_local_dir,
            seq![COMPANY_NAME@, SERVICE_NAME@, BACKUPS_DIR_NAME@],
            r,
        ),
{
    match get_service_base_path(data_local_dir) {
        Ok(service_base) => {
            let dir = service_base.join(BACKUPS_DIR_NAME);
            proof {
                assert(dir.steps() =~= seq![COMPANY_NAME@, SERVICE_NAME@, BACKUPS_DIR_NAME@]);
            }
            Ok(dir)
        },
        Err(e) => Err(e),
    }
}

} // verus!
