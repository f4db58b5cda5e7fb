use reactor::dispatch::{dispatch_one, Event, StepOutcome};
use reactor::model::{Command as CommandContract, Input};
use reactor::num_model::{Command, Message, NumModel};

#[test]
fn surviving_step_renders_into_the_view_channel() {
    let (command_tx, _command_rx) = flume::unbounded::<Command>();
    let (view_tx, view_rx) = flume::unbounded::<String>();
    let mut model = NumModel::default();
    let outcome = dispatch_one(
        &mut model,
        Event::Input(Input::Increment),
        &command_tx,
        &view_tx,
    );
    assert_eq!(outcome, StepOutcome::Continue);
    assert_eq!(view_rx.try_recv().unwrap(), "1".to_string());
    assert!(view_rx.try_recv().is_err());
}

#[test]
fn quit_finishes_without_rendering() {
    let (command_tx, command_rx) = flume::unbounded::<Command>();
    let (view_tx, view_rx) = flume::unbounded::<String>();
    let mut model = NumModel::default();
    let outcome = dispatch_one(&mut model, Event::Input(Input::Quit), &command_tx, &view_tx);
    assert_eq!(outcome, StepOutcome::Finished);
    assert!(view_rx.try_recv().is_err());
    assert!(command_rx.try_recv().is_err());
}

#[test]
fn reaching_five_forwards_one_command() {
    let (command_tx, command_rx) = flume::unbounded::<Command>();
    let (view_tx, view_rx) = flume::unbounded::<String>();
    let mut model = NumModel {
        n: 4,
        saw_other: false,
    };
    let outcome = dispatch_one(
        &mut model,
        Event::Input(Input::Increment),
        &command_tx,
        &view_tx,
    );
    assert_eq!(outcome, StepOutcome::Continue);
    assert!(matches!(command_rx.try_recv(), Ok(Command::MaybeIncrement)));
    assert!(command_rx.try_recv().is_err());
    assert_eq!(view_rx.try_recv().unwrap(), "5".to_string());
}

#[test]
fn closed_command_sink_is_fatal() {
    let (command_tx, command_rx) = flume::unbounded::<Command>();
    drop(command_rx);
    let (view_tx, view_rx) = flume::unbounded::<String>();
    let mut model = NumModel {
        n: 4,
        saw_other: false,
    };
    let outcome = dispatch_one(
        &mut model,
        Event::Input(Input::Increment),
        &command_tx,
        &view_tx,
    );
    assert_eq!(outcome, StepOutcome::CommandSinkClosed);
    assert!(view_rx.try_recv().is_err());
}

#[test]
fn translator_round_trip_delivers_at_most_one_admitted_message() {
    // One pass of the translator loop: resolve a received command and
    // forward the message, if any, into the message channel.
    let (message_tx, message_rx) = flume::unbounded::<Message>();
    let command = Command::MaybeIncrement;
    if let Some(message) = command.into_message() {
        message_tx.send(message).unwrap();
    }
    match message_rx.try_recv() {
        Ok(Message::Input(Input::Increment)) => {}
        Ok(_) => panic!("inadmissible feedback message"),
        Err(_) => {}
    }
    assert!(message_rx.try_recv().is_err());
}
