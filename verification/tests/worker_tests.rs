use genetic_solver::dna::{Dna, DnaData, Fitness};
use genetic_solver::worker::{
    consume_and_score, receive_next_command, set_result, wrap_command, CommandHandle, DnaCommand,
    Session, WorkerError,
};

fn genome_with_marks() -> Dna {
    let mut p = vec![Box::new(DnaData::new(5, 1))];
    let mut dna = Dna::new(&mut p);
    dna.reference.body_nodes[0] = 1;
    dna.reference.body_nodes[4] = 1;
    dna.reference.body_masteries[2] = 1;
    dna
}

#[test]
fn session_accessors_return_configured_values() {
    let s = Session::new(3, 100, 8);
    assert_eq!(s.get_session_number(), 3);
    assert_eq!(s.get_session_parameters(), (100, 8));
}

#[test]
fn end_to_end_scoring_round_trip() {
    let (cmd_tx, cmd_rx) = crossbeam::channel::unbounded();
    let (res_tx, res_rx) = crossbeam::channel::unbounded();

    let dna = genome_with_marks();
    let nodes = dna.reference.body_nodes.clone();
    let masteries = dna.reference.body_masteries.clone();

    cmd_tx.send(Box::new(DnaCommand { dna: Some(dna) })).unwrap();

    let mut handle = receive_next_command(&cmd_rx).unwrap();
    {
        let (n, m) = handle.genes().unwrap();
        assert_eq!(n, &nodes);
        assert_eq!(m, &masteries);
    }

    let fitness_x = 123.5f64;
    set_result(&mut handle, fitness_x.to_bits(), &res_tx).unwrap();

    let scored = res_rx.recv().unwrap();
    let scored_dna = scored.dna.unwrap();
    assert_eq!(scored_dna.reference.fitness_score, Fitness::Scored(fitness_x.to_bits()));
    assert_eq!(scored_dna.reference.body_nodes, nodes);
    assert_eq!(scored_dna.reference.body_masteries, masteries);
}

#[test]
fn take_yields_the_command_only_once() {
    let mut handle = CommandHandle::new(Box::new(DnaCommand { dna: None }));
    assert!(handle.take().is_some());
    assert!(handle.take().is_none());
    assert!(handle.genes().is_none());
}

#[test]
fn result_handle_is_single_use() {
    let (res_tx, res_rx) = crossbeam::channel::unbounded();
    let mut handle = CommandHandle::new(Box::new(DnaCommand { dna: Some(genome_with_marks()) }));

    assert_eq!(set_result(&mut handle, 1.5f64.to_bits(), &res_tx), Ok(()));
    assert_eq!(
        set_result(&mut handle, 2.5f64.to_bits(), &res_tx),
        Err(WorkerError::HandleAlreadyUsed)
    );

    // The failed second use corrupted nothing: exactly one scored command
    // sits in the result queue, carrying the first score.
    let scored = res_rx.try_recv().unwrap();
    assert_eq!(
        scored.dna.unwrap().reference.fitness_score,
        Fitness::Scored(1.5f64.to_bits())
    );
    assert!(res_rx.try_recv().is_err());
}

#[test]
fn consume_and_score_writes_the_score_in_place() {
    let dna = genome_with_marks();
    let nodes = dna.reference.body_nodes.clone();
    let mut handle = CommandHandle::new(Box::new(DnaCommand { dna: Some(dna) }));

    let cmd = consume_and_score(&mut handle, 9.25f64.to_bits()).unwrap();
    let scored = cmd.dna.unwrap();
    assert_eq!(scored.reference.fitness_score, Fitness::Scored(9.25f64.to_bits()));
    assert_eq!(scored.reference.body_nodes, nodes);

    match consume_and_score(&mut handle, 1.0f64.to_bits()) {
        Err(WorkerError::HandleAlreadyUsed) => {}
        _ => panic!("a consumed handle must not be usable again"),
    }
}

#[test]
fn wrap_command_requires_a_genome() {
    let dna = genome_with_marks();
    let nodes = dna.reference.body_nodes.clone();
    let handle = wrap_command(Box::new(DnaCommand { dna: Some(dna) })).unwrap();
    assert_eq!(handle.genes().unwrap().0, &nodes);

    match wrap_command(Box::new(DnaCommand { dna: None })) {
        Err(WorkerError::MissingDna) => {}
        _ => panic!("a command without a genome must be rejected"),
    }
}

#[test]
fn command_without_genome_is_a_detected_fault() {
    let (cmd_tx, cmd_rx) = crossbeam::channel::unbounded::<Box<DnaCommand>>();
    cmd_tx.send(Box::new(DnaCommand { dna: None })).unwrap();
    match receive_next_command(&cmd_rx) {
        Err(WorkerError::MissingDna) => {}
        _ => panic!("a command without a genome must be rejected"),
    }

    let (res_tx, res_rx) = crossbeam::channel::unbounded();
    let mut handle = CommandHandle::new(Box::new(DnaCommand { dna: None }));
    assert_eq!(
        set_result(&mut handle, 0.0f64.to_bits(), &res_tx),
        Err(WorkerError::MissingDna)
    );
    assert!(res_rx.try_recv().is_err());
}

#[test]
fn closed_channels_are_termination_signals() {
    let (cmd_tx, cmd_rx) = crossbeam::channel::unbounded::<Box<DnaCommand>>();
    drop(cmd_tx);
    match receive_next_command(&cmd_rx) {
        Err(WorkerError::ChannelClosed) => {}
        _ => panic!("a closed command channel must end the worker"),
    }

    let (res_tx, res_rx) = crossbeam::channel::unbounded::<Box<DnaCommand>>();
    drop(res_rx);
    let mut handle = CommandHandle::new(Box::new(DnaCommand { dna: Some(genome_with_marks()) }));
    assert_eq!(
        set_result(&mut handle, 0.5f64.to_bits(), &res_tx),
        Err(WorkerError::ChannelClosed)
    );
}
