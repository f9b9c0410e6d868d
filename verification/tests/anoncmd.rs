use std::sync::{Arc, Mutex};

use interacto::anoncmd::AnonCmd;
use interacto::command::Command;

#[test]
fn can_do_ok_cmd() {
    assert_eq!(Command::new(AnonCmd::new(|| {})).can_execute(), true);
}

#[test]
fn execute() {
    let ok = Arc::new(Mutex::new(false));

    let mut cmd = Command::new(AnonCmd::new(|| {
        let mut data = ok.lock().unwrap();
        *data = true;
    }));
    cmd.execute();
    assert_eq!(*ok.lock().unwrap(), true);
}

#[test]
fn had_effect() {
    let mut cmd = Command::new(AnonCmd::new(|| {}));
    cmd.execute();
    cmd.done();
    assert_eq!(cmd.had_effect(), true);
}
