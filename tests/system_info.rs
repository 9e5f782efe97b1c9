use temp_cleaner::{append_decimal, contains_str, folder_to_open, kill_verdict, status_label, SystemInfo};

#[test]
fn readings_with_defaults() {
    let s = SystemInfo::from_readings(Some("CPU X".to_string()), 8, 16, 4, None, Some("11".to_string()), None);
    assert_eq!(s.cpu_name, "CPU X");
    assert_eq!(s.cpu_cores, 8);
    assert_eq!(s.total_memory, 16);
    assert_eq!(s.used_memory, 4);
    assert_eq!(s.os_name, "Desconhecido");
    assert_eq!(s.os_version, "11");
    assert_eq!(s.kernel_version, "Desconhecido");
}

#[test]
fn status_labels() {
    assert_eq!(status_label("Runnable"), "Executando");
    assert_eq!(status_label("Run"), "Executando");
    assert_eq!(status_label("Sleeping"), "Suspenso");
    assert_eq!(status_label("Zombie"), "Zombie");
    assert_eq!(status_label(""), "");
}

#[test]
fn substring_search() {
    assert!(contains_str("abcde", "cd"));
    assert!(contains_str("abc", ""));
    assert!(!contains_str("ab", "abc"));
    assert!(!contains_str("abcde", "ce"));
}

#[test]
fn folder_of_file_and_directory() {
    assert_eq!(folder_to_open("C:\\a\\f.txt".to_string(), true, Some("C:\\a".to_string())), "C:\\a");
    assert_eq!(folder_to_open("C:\\a".to_string(), false, Some("C:\\".to_string())), "C:\\a");
    assert_eq!(folder_to_open("f".to_string(), true, None), "f");
}

#[test]
fn kill_verdicts() {
    assert_eq!(kill_verdict(true, true), Ok(true));
    assert_eq!(kill_verdict(false, false), Err("Processo não encontrado".to_string()));
    assert_eq!(kill_verdict(true, false), Err("Não foi possível encerrar o processo".to_string()));
}

#[test]
fn decimal_digits() {
    let mut s = String::from("n=");
    append_decimal(&mut s, 0);
    assert_eq!(s, "n=0");
    let mut t = String::new();
    append_decimal(&mut t, 90210);
    assert_eq!(t, "90210");
}
