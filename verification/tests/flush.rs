use repac_splitter::commands::TimerCommand;
use repac_splitter::commands::end_of_run_flush;

#[test]
fn flush_is_a_hundred_skips_then_one_split() {
    let mut cmds: Vec<TimerCommand> = Vec::new();
    end_of_run_flush(&mut cmds);
    assert_eq!(cmds.len(), 101);
    for cmd in cmds.iter().take(100) {
        assert_eq!(*cmd, TimerCommand::SkipSplit);
    }
    assert_eq!(cmds[100], TimerCommand::Split);
}

#[test]
fn flush_appends_after_earlier_commands() {
    // However many real splits preceded it, the flush itself is unchanged.
    let mut cmds = vec![TimerCommand::Split, TimerCommand::Split, TimerCommand::Split];
    end_of_run_flush(&mut cmds);
    assert_eq!(cmds.len(), 104);
    for cmd in cmds.iter().skip(3).take(100) {
        assert_eq!(*cmd, TimerCommand::SkipSplit);
    }
    assert_eq!(cmds[103], TimerCommand::Split);
}
