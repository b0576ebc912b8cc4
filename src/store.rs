//! The decisions of the locked atomic store: where its files live, how a
//! temporary file is named, when permissions need fixing, and what a restore
//! writes. The file operations themselves are the caller's.
use crate::error::VaultError;
use crate::text::{chars_of, owned, push_char, push_str, string_of};
use vstd::prelude::*;

verus! {

/// The only permission bits a vault file may carry: owner read and write.
pub const OWNER_ONLY_MODE: u32 = 0o600;

/// Path `name` inside directory `base`, with one separator between them.
pub open spec fn joined(base: Seq<char>, name: Seq<char>) -> Seq<char> {
    if base.len() == 0 {
        name
    } else if base.last() == '/' {
        base + name
    } else {
        base + seq!['/'] + name
    }
}

/// The lowercase hexadecimal digit of a value below 16.
pub open spec fn hex_char(d: nat) -> char {
    seq!['0', '1', '2', '3', '4', '5', '6', '7', '8', '9', 'a', 'b', 'c', 'd', 'e', 'f'][d as int]
}

/// Lowercase hexadecimal digits of a number, without leading zeros.
pub open spec fn hex_digits(n: nat) -> Seq<char>
    decreases n,
{
    if n < 16 {
        seq![hex_char(n)]
    } else {
        hex_digits(n / 16).push(hex_char(n % 16))
    }
}

/// The digits of a number, or none for zero.
pub open spec fn hex_digits_or_empty(m: nat) -> Seq<char> {
    if m == 0 {
        Seq::empty()
    } else {
        hex_digits(m)
    }
}

proof fn lemma_hex_step(m: nat)
    requires
        m > 0,
    ensures
        hex_digits_or_empty(m) == hex_digits_or_empty(m / 16).push(hex_char(m % 16)),
{
    if m < 16 {
        assert(m / 16 == 0);
        assert(m % 16 == m);
        assert(hex_digits(m) =~= seq![hex_char(m)]);
        assert(Seq::<char>::empty().push(hex_char(m)) =~= seq![hex_char(m)]);
    }
}

/// Joins a directory and a name into a path.
pub fn join_path(base: &str, name: &str) -> (r: String)
    ensures
        r@ == joined(base@, name@),
{
    let b = chars_of(base);
    let mut out = owned(base);
    if b.len() > 0 && b[b.len() - 1] != '/' {
        push_char(&mut out, '/');
    }
    push_str(&mut out, name);
    proof {
        if base@.len() == 0 {
            assert(base@ + name@ =~= name@);
        }
    }
    out
}

fn hex_digit(d: u64) -> (c: char)
    requires
        d < 16,
    ensures
        c == hex_char(d as nat),
{
    let digits: [char; 16] = [
        '0', '1', '2', '3', '4', '5', '6', '7', '8', '9', 'a', 'b', 'c', 'd', 'e', 'f',
    ];
    assert(digits@ =~= seq!['0', '1', '2', '3', '4', '5', '6', '7', '8', '9', 'a', 'b', 'c', 'd', 'e', 'f']);
    digits[d as usize]
}

/// Lowercase hexadecimal text of a number, as `{:x}` writes it.
pub fn hex_u64(n: u64) -> (r: String)
    ensures
        r@ == hex_digits(n as nat),
{
    let mut rev: Vec<char> = Vec::new();
    let mut m: u64 = n;
    rev.push(hex_digit(m % 16));
    m = m / 16;
    proof {
        assert(rev@.reverse() =~= seq![hex_char((n % 16) as nat)]);
        if n >= 16 {
            assert(hex_digits(n as nat) == hex_digits((n / 16) as nat).push(hex_char((n % 16) as nat)));
        } else {
            assert(hex_digits(n as nat) =~= seq![hex_char(n as nat)]);
        }
        assert(hex_digits(n as nat) =~= hex_digits_or_empty(m as nat) + rev@.reverse());
    }
    while m > 0
        invariant
            hex_digits(n as nat) == hex_digits_or_empty(m as nat) + rev@.reverse(),
        decreases m,
    {
        let ghost old_rev = rev@;
        rev.push(hex_digit(m % 16));
        let ghost m0 = m;
        m = m / 16;
        proof {
            assert(rev@.reverse() =~= seq![hex_char((m0 % 16) as nat)] + old_rev.reverse());
            lemma_hex_step(m0 as nat);
            assert(hex_digits(n as nat) =~= hex_digits_or_empty(m as nat) + rev@.reverse());
        }
    }
    let mut out: Vec<char> = Vec::new();
    let mut i: usize = rev.len();
    while i > 0
        invariant
            0 <= i <= rev@.len(),
            out@ == rev@.subrange(i as int, rev@.len() as int).reverse(),
        decreases i,
    {
        i = i - 1;
        out.push(rev[i]);
        assert(rev@.subrange(i as int, rev@.len() as int).reverse() =~= rev@.subrange(
            i + 1,
            rev@.len() as int,
        ).reverse().push(rev@[i as int]));
    }
    assert(rev@.subrange(0, rev@.len() as int) =~= rev@);
    assert(hex_digits(n as nat) =~= rev@.reverse());
    string_of(&out)
}

/// The name of the temporary file an atomic replace writes first: the
/// target's file name, `.tmp`, and a random suffix in hexadecimal.
pub open spec fn temp_name(file_name: Option<Seq<char>>, suffix: u64) -> Seq<char> {
    let base = match file_name {
        Some(f) => f,
        None => "vault.json"@,
    };
    base + ".tmp"@ + hex_digits(suffix as nat)
}

/// Names the temporary file for an atomic replace.
pub fn temp_file_name(file_name: Option<&str>, suffix: u64) -> (r: String)
    ensures
        r@ == temp_name(
            match file_name {
                Some(f) => Some(f@),
                None => None,
            },
            suffix,
        ),
{
    let mut out = match file_name {
        Some(f) => owned(f),
        None => owned("vault.json"),
    };
    push_str(&mut out, ".tmp");
    let hex = hex_u64(suffix);
    push_str(&mut out, hex.as_str());
    out
}

/// Whether a file's mode differs from owner-only read and write in its
/// permission bits, so that it must be corrected.
pub fn permissions_need_fix(mode: u32) -> (r: bool)
    ensures
        r == (mode & 0o777 != OWNER_ONLY_MODE),
{
    mode & 0o777 != OWNER_ONLY_MODE
}

/// What restoring the backup writes over the primary vault: the backup's
/// contents unchanged, or `NoBackupFound` when there is none.
pub fn restore_contents(backup: Option<String>) -> (r: Result<String, VaultError>)
    ensures
        backup is None ==> r == Err::<String, VaultError>(VaultError::NoBackupFound),
        backup matches Some(b) ==> (r matches Ok(c) && c@ == b@),
{
    match backup {
        Some(b) => Ok(b),
        None => Err(VaultError::NoBackupFound),
    }
}

/// The outcome of trying the vault lock without waiting: a contended lock
/// is `VaultBusy`.
pub fn lock_outcome(acquired: bool) -> (r: Result<(), VaultError>)
    ensures
        acquired ==> r is Ok,
        !acquired ==> r == Err::<(), VaultError>(VaultError::VaultBusy),
{
    if acquired {
        Ok(())
    } else {
        Err(VaultError::VaultBusy)
    }
}

/// Where the store keeps its files under a home directory.
pub struct StoreLayout {
    /// The per-user data directory.
    pub data_dir: String,
    /// The default primary vault.
    pub vault: String,
    /// The directory of the backup copy.
    pub backup_dir: String,
    /// The backup copy of the last written envelope.
    pub backup: String,
    /// The session record.
    pub session: String,
    /// The configuration file.
    pub config: String,
    /// The default remote copy of the file sync backend.
    pub remote: String,
}

/// The per-user data directory under a home directory.
pub open spec fn data_dir_of(home: Seq<char>) -> Seq<char> {
    joined(home, ".ownkey"@)
}

impl StoreLayout {
    /// The layout under a home directory: everything lives in `.ownkey`,
    /// the backup in its `backups` subdirectory.
    pub fn for_home(home: &str) -> (r: StoreLayout)
        ensures
            r.data_dir@ == data_dir_of(home@),
            r.vault@ == joined(data_dir_of(home@), "vault.json"@),
            r.backup_dir@ == joined(data_dir_of(home@), "backups"@),
            r.backup@ == joined(joined(data_dir_of(home@), "backups"@), "vault.json.bak"@),
            r.session@ == joined(data_dir_of(home@), "session"@),
            r.config@ == joined(data_dir_of(home@), "config.toml"@),
            r.remote@ == joined(data_dir_of(home@), "remote_vault.json"@),
    {
        let data_dir = join_path(home, ".ownkey");
        let backup_dir = join_path(data_dir.as_str(), "backups");
        StoreLayout {
            vault: join_path(data_dir.as_str(), "vault.json"),
            backup: join_path(backup_dir.as_str(), "vault.json.bak"),
            session: join_path(data_dir.as_str(), "session"),
            config: join_path(data_dir.as_str(), "config.toml"),
            remote: join_path(data_dir.as_str(), "remote_vault.json"),
            data_dir,
            backup_dir,
        }
    }
}

/// The steps of replacing a file atomically, in the order they run.
#[derive(Debug, Clone, Copy, PartialEq, Eq, Structural)]
pub enum ReplaceStep {
    /// Write the contents to a fresh temporary file beside the target.
    WriteTemp,
    /// Flush the temporary file durably to storage.
    SyncTemp,
    /// Rename the temporary file over the target.
    Rename,
    /// Sync the directory, so that the rename itself survives a crash.
    SyncDir,
    /// Check and correct the target's permissions.
    FixPermissions,
    /// The replace is complete.
    Done,
    /// The replace stopped on a failure.
    Failed,
}

/// The step after `step`, given whether it succeeded. A directory that
/// cannot be synced does not fail the replace.
pub open spec fn replace_after(step: ReplaceStep, succeeded: bool) -> ReplaceStep {
    match step {
        ReplaceStep::WriteTemp => if succeeded { ReplaceStep::SyncTemp } else { ReplaceStep::Failed },
        ReplaceStep::SyncTemp => if succeeded { ReplaceStep::Rename } else { ReplaceStep::Failed },
        ReplaceStep::Rename => if succeeded { ReplaceStep::SyncDir } else { ReplaceStep::Failed },
        ReplaceStep::SyncDir => ReplaceStep::FixPermissions,
        ReplaceStep::FixPermissions => if succeeded { ReplaceStep::Done } else { ReplaceStep::Failed },
        ReplaceStep::Done => ReplaceStep::Done,
        ReplaceStep::Failed => ReplaceStep::Failed,
    }
}

/// Decides the next step of an atomic replace.
pub fn next_replace_step(step: ReplaceStep, succeeded: bool) -> (r: ReplaceStep)
    ensures
        r == replace_after(step, succeeded),
{
    match step {
        ReplaceStep::WriteTemp => if succeeded { ReplaceStep::SyncTemp } else { ReplaceStep::Failed },
        ReplaceStep::SyncTemp => if succeeded { ReplaceStep::Rename } else { ReplaceStep::Failed },
        ReplaceStep::Rename => if succeeded { ReplaceStep::SyncDir } else { ReplaceStep::Failed },
        ReplaceStep::SyncDir => ReplaceStep::FixPermissions,
        ReplaceStep::FixPermissions => if succeeded { ReplaceStep::Done } else { ReplaceStep::Failed },
        ReplaceStep::Done => ReplaceStep::Done,
        ReplaceStep::Failed => ReplaceStep::Failed,
    }
}

/// The step an atomic replace reaches after the given outcomes, from its
/// first step.
pub open spec fn replace_reached(outcomes: Seq<bool>) -> ReplaceStep
    decreases outcomes.len(),
{
    if outcomes.len() == 0 {
        ReplaceStep::WriteTemp
    } else {
        replace_after(replace_reached(outcomes.drop_last()), outcomes.last())
    }
}

/// Crash safety of the replace: only the rename touches the target, and it
/// is reached only as the third step, after the temporary file was written
/// and synced. A process that stops at any earlier step leaves the target
/// as it was.
pub proof fn lemma_rename_after_durable_temp(outcomes: Seq<bool>)
    ensures
        replace_reached(outcomes) == ReplaceStep::Rename ==> outcomes.len() == 2 && outcomes[0]
            && outcomes[1],
    decreases outcomes.len(),
{
    if outcomes.len() > 0 {
        let prev = outcomes.drop_last();
        lemma_rename_after_durable_temp(prev);
        if prev.len() > 0 {
            lemma_replace_reached_not_initial(prev);
        }
    }
}

/// After at least one outcome the replace has left its first step.
proof fn lemma_replace_reached_not_initial(outcomes: Seq<bool>)
    requires
        outcomes.len() > 0,
    ensures
        replace_reached(outcomes) != ReplaceStep::WriteTemp,
        replace_reached(outcomes) == ReplaceStep::SyncTemp ==> outcomes.len() == 1 && outcomes[0],
    decreases outcomes.len(),
{
    if outcomes.len() > 1 {
        lemma_replace_reached_not_initial(outcomes.drop_last());
    }
}

/// The steps of a locked write of the vault, in the order they run.
#[derive(Debug, Clone, Copy, PartialEq, Eq, Structural)]
pub enum WriteStep {
    /// Take the vault's lock without waiting.
    Lock,
    /// Check and correct the vault file's permissions.
    FixPermissions,
    /// Atomically replace the primary vault.
    ReplacePrimary,
    /// Atomically replace the backup copy with the same contents.
    ReplaceBackup,
    /// The write is complete.
    Done,
    /// The write stopped with this failure.
    Failed(VaultError),
}

/// The step after `step`, given whether it succeeded.
pub open spec fn write_after(step: WriteStep, succeeded: bool) -> WriteStep {
    match step {
        WriteStep::Lock => if succeeded {
            WriteStep::FixPermissions
        } else {
            WriteStep::Failed(VaultError::VaultBusy)
        },
        WriteStep::FixPermissions => if succeeded {
            WriteStep::ReplacePrimary
        } else {
            WriteStep::Failed(VaultError::IoFailure)
        },
        WriteStep::ReplacePrimary => if succeeded {
            WriteStep::ReplaceBackup
        } else {
            WriteStep::Failed(VaultError::IoFailure)
        },
        WriteStep::ReplaceBackup => if succeeded {
            WriteStep::Done
        } else {
            WriteStep::Failed(VaultError::IoFailure)
        },
        WriteStep::Done => WriteStep::Done,
        WriteStep::Failed(e) => WriteStep::Failed(e),
    }
}

/// Decides the next step of a locked write.
pub fn next_write_step(step: WriteStep, succeeded: bool) -> (r: WriteStep)
    ensures
        r == write_after(step, succeeded),
{
    match step {
        WriteStep::Lock => if succeeded {
            WriteStep::FixPermissions
        } else {
            WriteStep::Failed(VaultError::VaultBusy)
        },
        WriteStep::FixPermissions => if succeeded {
            WriteStep::ReplacePrimary
        } else {
            WriteStep::Failed(VaultError::IoFailure)
        },
        WriteStep::ReplacePrimary => if succeeded {
            WriteStep::ReplaceBackup
        } else {
            WriteStep::Failed(VaultError::IoFailure)
        },
        WriteStep::ReplaceBackup => if succeeded {
            WriteStep::Done
        } else {
            WriteStep::Failed(VaultError::IoFailure)
        },
        WriteStep::Done => WriteStep::Done,
        WriteStep::Failed(e) => WriteStep::Failed(e),
    }
}

/// The step a locked write reaches after the given outcomes.
pub open spec fn write_reached(outcomes: Seq<bool>) -> WriteStep
    decreases outcomes.len(),
{
    if outcomes.len() == 0 {
        WriteStep::Lock
    } else {
        write_after(write_reached(outcomes.drop_last()), outcomes.last())
    }
}

/// The backup is replaced only after the lock was taken and the primary was
/// replaced successfully, so a failed write of the primary never touches
/// the backup; a contended lock ends the write as `VaultBusy` at once.
pub proof fn lemma_backup_after_primary(outcomes: Seq<bool>)
    ensures
        write_reached(outcomes) == WriteStep::ReplaceBackup ==> outcomes.len() == 3 && outcomes[0]
            && outcomes[1] && outcomes[2],
        outcomes.len() >= 1 && !outcomes[0] ==> write_reached(outcomes) == WriteStep::Failed(
            VaultError::VaultBusy,
        ),
    decreases outcomes.len(),
{
    if outcomes.len() > 0 {
        let prev = outcomes.drop_last();
        lemma_backup_after_primary(prev);
        lemma_write_prefix(prev);
        if prev.len() >= 1 && !outcomes[0] {
            assert(prev[0] == outcomes[0]);
        }
    }
}

/// Which step a write can be at after a number of outcomes.
proof fn lemma_write_prefix(outcomes: Seq<bool>)
    ensures
        write_reached(outcomes) == WriteStep::Lock ==> outcomes.len() == 0,
        write_reached(outcomes) == WriteStep::FixPermissions ==> outcomes.len() == 1 && outcomes[0],
        write_reached(outcomes) == WriteStep::ReplacePrimary ==> outcomes.len() == 2 && outcomes[0]
            && outcomes[1],
    decreases outcomes.len(),
{
    if outcomes.len() > 0 {
        let prev = outcomes.drop_last();
        lemma_write_prefix(prev);
        if prev.len() > 0 {
            assert(prev[0] == outcomes[0]);
        }
        if prev.len() > 1 {
            assert(prev[1] == outcomes[1]);
        }
    }
}

} // verus!
