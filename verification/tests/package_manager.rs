use multimeter_engine::monitor::package_manager::{
    detect_package_manager_by_command, detect_package_manager_by_os_name, get_os_name, package_manager_from_name,
    seek_packager_manager_type, DetectionStep, PackageManager, PackageManagerCommandRule, PackageManagerConfig,
    PackageManagerOsNameRule, PackageManagerType,
};

fn strings(items: &[&str]) -> Vec<String> {
    items.iter().map(|s| s.to_string()).collect()
}

fn package_manager_config() -> PackageManagerConfig {
    let os_rule = |contains: &[&str], pm: &str| PackageManagerOsNameRule {
        contains: strings(contains),
        package_manager: pm.to_string(),
    };
    let command_rule = |program: &str| PackageManagerCommandRule {
        program: program.to_string(),
        args: strings(&["--version"]),
        package_manager: program.to_string(),
    };
    PackageManagerConfig {
        os_name: vec![
            os_rule(&["debian", "ubuntu", "mint"], "apt"),
            os_rule(&["fedora", "red hat", "centos"], "dnf"),
            os_rule(&["arch", "manjaro"], "pacman"),
        ],
        command: vec![command_rule("apt"), command_rule("dnf"), command_rule("pacman")],
    }
}

const DEBIAN_OS_RELEASE: &str = "PRETTY_NAME=\"Debian GNU/Linux 12 (bookworm)\"\nNAME=\"Debian GNU/Linux\"\nVERSION_ID=\"12\"\nID=debian\n";

#[test]
fn test_get_os_name() {
    let os_name = get_os_name(DEBIAN_OS_RELEASE);
    assert!(os_name.is_some(), "get_os_name() should return Some on Linux");
    let name = os_name.unwrap();
    assert!(!name.is_empty(), "OS name should not be empty");
    println!("detected OS name: {name}");
}

#[test]
fn test_seek_packager_manager_type() {
    let config = package_manager_config();
    let name = get_os_name(DEBIAN_OS_RELEASE);
    let result = seek_packager_manager_type(&config, name.as_deref(), &Vec::new());
    assert!(matches!(result, DetectionStep::Detected(Some(_))), "should detect a package manager on Linux");
    println!("detected package manager: {:?}", result);
    assert_eq!(result, DetectionStep::Detected(Some(PackageManagerType::Apt)));
}

#[test]
fn test_package_manager_type_into_string() {
    let apt: String = PackageManagerType::Apt.into();
    let dnf: String = PackageManagerType::Dnf.into();
    let pacman: String = PackageManagerType::Pacman.into();

    assert_eq!(apt, "apt");
    assert_eq!(dnf, "dnf");
    assert_eq!(pacman, "pacman");
}

#[test]
fn names_read_back_as_package_managers() {
    for t in [PackageManagerType::Apt, PackageManagerType::Dnf, PackageManagerType::Pacman] {
        let name: String = t.into();
        assert_eq!(PackageManagerType::try_from(name.as_str()), Ok(t));
        assert_eq!(package_manager_from_name(&name), Some(t));
    }
    assert_eq!(PackageManagerType::try_from("APT"), Err(()));
    assert_eq!(package_manager_from_name("zypper"), None);
}

#[test]
fn os_name_is_matched_without_case() {
    let config = package_manager_config();
    assert_eq!(detect_package_manager_by_os_name(&config, "Fedora Linux"), Some(PackageManagerType::Dnf));
    assert_eq!(detect_package_manager_by_os_name(&config, "Arch Linux"), Some(PackageManagerType::Pacman));
    assert_eq!(detect_package_manager_by_os_name(&config, "Ubuntu"), Some(PackageManagerType::Apt));
    assert_eq!(detect_package_manager_by_os_name(&config, "Solaris"), None);
}

#[test]
fn commands_are_asked_for_in_order() {
    let config = package_manager_config();
    assert_eq!(detect_package_manager_by_command(&config, &vec![]), DetectionStep::RunCommand(0));
    assert_eq!(detect_package_manager_by_command(&config, &vec![None]), DetectionStep::RunCommand(1));
    assert_eq!(
        detect_package_manager_by_command(&config, &vec![Some("  \n".to_string())]),
        DetectionStep::RunCommand(1)
    );
    assert_eq!(
        detect_package_manager_by_command(&config, &vec![None, Some("dnf 4.18\n".to_string())]),
        DetectionStep::Detected(Some(PackageManagerType::Dnf))
    );
    assert_eq!(
        detect_package_manager_by_command(&config, &vec![None, None, None]),
        DetectionStep::Detected(None)
    );
}

#[test]
fn unknown_distribution_falls_back_to_commands() {
    let config = package_manager_config();
    let result = seek_packager_manager_type(&config, Some("Solaris"), &vec![Some("pacman v6".to_string())]);
    assert_eq!(result, DetectionStep::Detected(Some(PackageManagerType::Apt)));
    let result = seek_packager_manager_type(&config, None, &vec![]);
    assert_eq!(result, DetectionStep::RunCommand(0));
}

#[test]
fn os_release_name_is_unquoted() {
    assert_eq!(get_os_name("ID=arch\nNAME='Arch Linux'\n"), Some("Arch Linux".to_string()));
    assert_eq!(get_os_name("  NAME=  Fedora  \n"), Some("Fedora".to_string()));
    assert_eq!(get_os_name("ID=none\n"), None);
}

#[test]
fn new_package_manager_is_empty() {
    let m = PackageManager::new(Some(PackageManagerType::Apt));
    assert_eq!(m.package_count(), 0);
}

#[test]
fn upper_case_names_detect_alike() {
    let config = package_manager_config();
    for name in ["Debian GNU/Linux", "Fedora Linux", "Arch Linux", "Solaris"] {
        assert_eq!(
            detect_package_manager_by_os_name(&config, name),
            detect_package_manager_by_os_name(&config, &name.to_uppercase())
        );
    }
}

#[test]
fn detection_run_builds_the_package_manager() {
    let config = package_manager_config();
    let m = PackageManager::detect(&config, Some("Ubuntu"), &vec![]).ok().unwrap();
    assert_eq!(m.manager_type, Some(PackageManagerType::Apt));
    assert_eq!(m.package_count(), 0);
    assert_eq!(PackageManager::detect(&config, Some("Solaris"), &vec![None]).err(), Some(1));
    let m = PackageManager::detect(&config, None, &vec![None, None, Some("pacman 6".to_string())]).ok().unwrap();
    assert_eq!(m.manager_type, Some(PackageManagerType::Pacman));
    let m = PackageManager::detect(&config, None, &vec![None, None, None]).ok().unwrap();
    assert_eq!(m.manager_type, None);
}

#[test]
fn outputs_after_the_decision_change_nothing() {
    let config = package_manager_config();
    let decided = vec![Some("apt 2.6".to_string())];
    let more = vec![Some("apt 2.6".to_string()), Some("dnf 4".to_string())];
    assert_eq!(
        seek_packager_manager_type(&config, None, &decided),
        seek_packager_manager_type(&config, None, &more)
    );
}
