use editor::error::Error;
use editor::message::Message;
use editor::path::default_file;
use editor::task::{file_saved, load_file, pick_afile, Event, Task};
use std::io::ErrorKind;
use std::path::PathBuf;
use std::sync::Arc;

#[test]
fn default_file_is_main_rs_below_the_directory() {
    assert_eq!(default_file("C:\\work\\editor"), PathBuf::from("C:\\work\\editor\\src\\main.rs"));
    assert_eq!(default_file(""), PathBuf::from("\\src\\main.rs"));
}

#[test]
fn picking_starts_with_the_dialog() {
    assert_eq!(pick_afile(), Task::Pick);
}

#[test]
fn loading_starts_with_reading() {
    assert_eq!(load_file(PathBuf::from("/tmp/a.txt")), Task::Load { path: PathBuf::from("/tmp/a.txt") });
}

#[test]
fn saving_to_a_known_path_starts_with_writing() {
    assert_eq!(
        file_saved(Some(PathBuf::from("/tmp/a.txt")), String::from("text")),
        Task::Write { path: PathBuf::from("/tmp/a.txt"), text: String::from("text") }
    );
}

#[test]
fn saving_without_a_path_starts_with_the_dialog() {
    assert_eq!(file_saved(None, String::from("text")), Task::Choose { text: String::from("text") });
}

#[test]
fn a_picked_file_is_read_next() {
    assert_eq!(
        Task::Pick.step(Event::Picked(Some(PathBuf::from("/tmp/a.txt")))),
        Task::Load { path: PathBuf::from("/tmp/a.txt") }
    );
}

#[test]
fn a_closed_open_dialog_ends_with_dialog_cancelled() {
    assert_eq!(
        Task::Pick.step(Event::Picked(None)),
        Task::Done { message: Message::FileOpen(Err(Error::DialogCancelled)) }
    );
}

#[test]
fn a_file_that_was_read_ends_with_path_and_text() {
    assert_eq!(
        load_file(PathBuf::from("/tmp/a.txt")).step(Event::Read(Ok(String::from("a\r\nb")))),
        Task::Done {
            message: Message::FileOpen(Ok((
                PathBuf::from("/tmp/a.txt"),
                Arc::new(String::from("a\r\nb"))
            )))
        }
    );
}

#[test]
fn a_file_that_could_not_be_read_ends_with_io_failure() {
    assert_eq!(
        load_file(PathBuf::from("/tmp/a.txt")).step(Event::Read(Err(ErrorKind::NotFound))),
        Task::Done { message: Message::FileOpen(Err(Error::IoFailure(ErrorKind::NotFound))) }
    );
}

#[test]
fn a_chosen_path_is_written_next() {
    assert_eq!(
        file_saved(None, String::from("text")).step(Event::Picked(Some(PathBuf::from("/tmp/b.txt")))),
        Task::Write { path: PathBuf::from("/tmp/b.txt"), text: String::from("text") }
    );
}

#[test]
fn a_closed_save_dialog_ends_with_dialog_cancelled() {
    assert_eq!(
        file_saved(None, String::from("text")).step(Event::Picked(None)),
        Task::Done { message: Message::FileSaved(Err(Error::DialogCancelled)) }
    );
}

#[test]
fn a_file_that_was_written_ends_with_its_path() {
    assert_eq!(
        file_saved(Some(PathBuf::from("/tmp/a.txt")), String::from("text")).step(Event::Written(Ok(()))),
        Task::Done { message: Message::FileSaved(Ok(PathBuf::from("/tmp/a.txt"))) }
    );
}

#[test]
fn a_file_that_could_not_be_written_ends_with_io_failure() {
    assert_eq!(
        file_saved(Some(PathBuf::from("/tmp/a.txt")), String::from("text"))
            .step(Event::Written(Err(ErrorKind::PermissionDenied))),
        Task::Done {
            message: Message::FileSaved(Err(Error::IoFailure(ErrorKind::PermissionDenied)))
        }
    );
}

#[test]
fn an_event_that_does_not_answer_the_task_leaves_it() {
    assert_eq!(Task::Pick.step(Event::Written(Ok(()))), Task::Pick);
    assert_eq!(Task::Pick.step(Event::Read(Ok(String::from("text")))), Task::Pick);
    assert_eq!(
        load_file(PathBuf::from("/tmp/a.txt")).step(Event::Picked(None)),
        Task::Load { path: PathBuf::from("/tmp/a.txt") }
    );
    assert_eq!(
        load_file(PathBuf::from("/tmp/a.txt")).step(Event::Written(Err(ErrorKind::NotFound))),
        Task::Load { path: PathBuf::from("/tmp/a.txt") }
    );
    assert_eq!(
        file_saved(None, String::from("text")).step(Event::Written(Ok(()))),
        Task::Choose { text: String::from("text") }
    );
    assert_eq!(
        file_saved(Some(PathBuf::from("/tmp/a.txt")), String::from("text")).step(Event::Picked(None)),
        Task::Write { path: PathBuf::from("/tmp/a.txt"), text: String::from("text") }
    );
}

#[test]
fn a_task_that_has_ended_stays_ended() {
    let done = Task::Pick.step(Event::Picked(None));
    assert_eq!(
        done.step(Event::Picked(Some(PathBuf::from("/tmp/a.txt")))),
        Task::Done { message: Message::FileOpen(Err(Error::DialogCancelled)) }
    );
}
