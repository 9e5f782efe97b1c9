use vstd::prelude::*;

verus! {

/// Processor, memory and operating-system facts of the machine.
pub struct SystemInfo {
    pub cpu_name: String,
    pub cpu_cores: usize,
    pub total_memory: u64,
    pub used_memory: u64,
    pub os_name: String,
    pub os_version: String,
    pub kernel_version: String,
}

/// One mounted disk.
pub struct DiskInfo {
    pub name: String,
    pub mount_point: String,
    pub total_space: u64,
    pub available_space: u64,
    pub is_removable: bool,
    pub file_system: String,
}

/// A reading, or the placeholder for an unknown one.
pub open spec fn or_unknown(o: Option<String>) -> Seq<char> {
    match o {
        Some(s) => s@,
        None => "Desconhecido"@,
    }
}

fn unknown_default(o: Option<String>) -> (r: String)
    ensures
        r@ == or_unknown(o),
{
    match o {
        Some(s) => s,
        None => String::from_str("Desconhecido"),
    }
}

impl SystemInfo {
    /// Assembles the facts from raw readings; a reading that is not
    /// available becomes "Desconhecido".
    pub fn from_readings(
        cpu_brand: Option<String>,
        cpu_cores: usize,
        total_memory: u64,
        used_memory: u64,
        os_name: Option<String>,
        os_version: Option<String>,
        kernel_version: Option<String>,
    ) -> (r: SystemInfo)
        ensures
            r.cpu_name@ == or_unknown(cpu_brand),
            r.cpu_cores == cpu_cores,
            r.total_memory == total_memory,
            r.used_memory == used_memory,
            r.os_name@ == or_unknown(os_name),
            r.os_version@ == or_unknown(os_version),
            r.kernel_version@ == or_unknown(kernel_version),
    {
        SystemInfo {
            cpu_name: unknown_default(cpu_brand),
            cpu_cores,
            total_memory,
            used_memory,
            os_name: unknown_default(os_name),
            os_version: unknown_default(os_version),
            kernel_version: unknown_default(kernel_version),
        }
    }
}

/// Whether `pat` occurs in `s` at position `i`.
pub open spec fn occurs_at(s: Seq<char>, pat: Seq<char>, i: int) -> bool {
    0 <= i && i + pat.len() <= s.len() && s.subrange(i, i + pat.len()) == pat
}

/// Whether `pat` occurs anywhere in `s`.
pub open spec fn contains(s: Seq<char>, pat: Seq<char>) -> bool {
    exists|i: int| occurs_at(s, pat, i)
}

fn occurs_at_exec(s: &str, n: usize, pat: &str, m: usize, i: usize) -> (b: bool)
    requires
        n == s@.len(),
        m == pat@.len(),
        i + m <= n,
    ensures
        b == occurs_at(s@, pat@, i as int),
{
    let mut k: usize = 0;
    while k < m
        invariant
            n == s@.len(),
            m == pat@.len(),
            i + m <= n,
            0 <= k <= m,
            forall|j: int| 0 <= j < k ==> s@[i + j] == pat@[j],
        decreases m - k,
    {
        if s.get_char(i + k) != pat.get_char(k) {
            assert(s@.subrange(i as int, i + m)[k as int] != pat@[k as int]);
            return false;
        }
        k = k + 1;
    }
    assert(s@.subrange(i as int, i + m) =~= pat@);
    true
}

/// Whether `pat` occurs in `s`.
pub fn contains_str(s: &str, pat: &str) -> (b: bool)
    ensures
        b == contains(s@, pat@),
{
    let n = s.unicode_len();
    let m = pat.unicode_len();
    if m > n {
        assert forall|i: int| !occurs_at(s@, pat@, i) by {}
        return false;
    }
    let mut i: usize = 0;
    loop
        invariant
            n == s@.len(),
            m == pat@.len(),
            m <= n,
            0 <= i <= n - m,
            forall|j: int| 0 <= j < i ==> !occurs_at(s@, pat@, j),
        ensures
            i == n - m,
            forall|j: int| 0 <= j <= i ==> !occurs_at(s@, pat@, j),
        decreases n - m - i,
    {
        if occurs_at_exec(s, n, pat, m, i) {
            return true;
        }
        if i == n - m {
            break;
        }
        i = i + 1;
    }
    assert forall|j: int| !occurs_at(s@, pat@, j) by {
        if 0 <= j <= i {
        }
    }
    false
}

/// The label shown for a process status: running and sleeping states get
/// their own words, any other status is shown as it is.
pub open spec fn status_label_spec(status: Seq<char>) -> Seq<char> {
    if contains(status, "Run"@) {
        "Executando"@
    } else if contains(status, "Sleep"@) {
        "Suspenso"@
    } else {
        status
    }
}

/// The label shown for the process status `status`.
pub fn status_label(status: &str) -> (r: String)
    ensures
        r@ == status_label_spec(status@),
{
    if contains_str(status, "Run") {
        String::from_str("Executando")
    } else if contains_str(status, "Sleep") {
        String::from_str("Suspenso")
    } else {
        String::from_str(status)
    }
}

/// The folder to show for `path`: the parent folder of a file (the file
/// itself when it has no parent), the path itself otherwise.
pub fn folder_to_open(path: String, is_file: bool, parent: Option<String>) -> (r: String)
    ensures
        r@ == if is_file && parent.is_some() {
            parent.unwrap()@
        } else {
            path@
        },
{
    if is_file {
        match parent {
            Some(p) => p,
            None => path,
        }
    } else {
        path
    }
}

/// The answer to a request to end a process: `Ok(true)` when it was found
/// and ended, an error naming which of the two failed otherwise.
pub fn kill_verdict(found: bool, killed: bool) -> (r: Result<bool, String>)
    ensures
        found && killed <==> r is Ok,
        r is Ok ==> r->Ok_0,
        !found ==> r is Err && r->Err_0@ == "Processo não encontrado"@,
        found && !killed ==> r is Err && r->Err_0@ == "Não foi possível encerrar o processo"@,
{
    if !found {
        Err(String::from_str("Processo não encontrado"))
    } else if killed {
        Ok(true)
    } else {
        Err(String::from_str("Não foi possível encerrar o processo"))
    }
}

} // verus!
