use hexosynth::dsp::{
    node_factory, Amp, DspNode, Node, NodeAudioContext, NodeId, NodeInfo, Out, ProcBuf, SAtom, Sin,
    StereoBlock, TSeq, Test, MAX_BLOCK_SIZE,
};

fn bits(x: f32) -> u32 {
    x.to_bits()
}

fn buffer(f: impl Fn(usize) -> f32) -> ProcBuf {
    let mut buf = ProcBuf::new();
    for i in 0..MAX_BLOCK_SIZE {
        buf.write(i, bits(f(i)));
    }
    buf
}

fn no_osc(_phase: u32, _freq: u32, _srate: u32) -> (u32, u32) {
    (0, 0)
}

fn sine(phase: u32, freq: u32, srate: u32) -> (u32, u32) {
    let phase = f32::from_bits(phase);
    let freq = 440.0 * (2.0_f32).powf(f32::from_bits(freq) * 10.0);
    let isr = 1.0 / f32::from_bits(srate);
    let sample = (phase * 2.0 * std::f32::consts::PI).sin();
    let next = (phase + freq * isr).fract();
    (bits(sample), bits(next))
}

#[test]
fn factory_makes_a_node_of_every_kind_but_the_placeholder() {
    assert!(node_factory(NodeId::Nop).is_none());
    let made = |id: NodeId| node_factory(id).unwrap();
    assert!(matches!(made(NodeId::Amp(1)).0, Node::Amp { .. }));
    assert!(matches!(made(NodeId::TSeq(2)).0, Node::TSeq { .. }));
    assert!(matches!(made(NodeId::Sin(3)).0, Node::Sin { .. }));
    assert!(matches!(made(NodeId::Out(4)).0, Node::Out { .. }));
    assert!(matches!(made(NodeId::Test(5)).0, Node::Test { .. }));
    for kind in ["amp", "tseq", "sin", "out", "test"] {
        let id = NodeId::from_str(kind).to_instance(7);
        let (node, info) = made(id);
        assert_eq!(info.to_id(), id);
        assert_eq!(node.to_id(7), id);
        assert_eq!(node.to_id(0), NodeId::from_str(kind));
        assert_eq!(node.to_id(256 + 9), id.to_instance(9));
    }
    assert_eq!(Node::Nop.to_id(3), NodeId::Nop);
}

#[test]
fn a_fresh_oscillator_rests_at_44100() {
    match node_factory(NodeId::Sin(0)).unwrap().0 {
        Node::Sin { node } => {
            assert_eq!(f32::from_bits(node.srate()), 44100.0);
            assert_eq!(f32::from_bits(node.phase()), 0.0);
        }
        _ => panic!("not an oscillator"),
    }
    let sin = Sin::new();
    assert_eq!(f32::from_bits(sin.srate()), 44100.0);
    assert_eq!(sin.phase(), 0);
}

#[test]
fn a_fresh_sequencer_rests() {
    let tseq = TSeq::new();
    assert_eq!(f32::from_bits(tseq.srate()), 44100.0);
    assert_eq!(tseq.row(), 0);
    assert_eq!(tseq.phase(), 0);
    for t in 0..6 {
        assert_eq!(tseq.track(t), 0);
    }
}

#[test]
fn outputs_of_every_kind_are_those_of_its_table() {
    assert_eq!(Amp::outputs(), NodeInfo::from("amp").out_count());
    assert_eq!(TSeq::outputs(), NodeInfo::from("tseq").out_count());
    assert_eq!(Sin::outputs(), NodeInfo::from("sin").out_count());
    assert_eq!(Out::outputs(), NodeInfo::from("out").out_count());
    assert_eq!(Test::outputs(), NodeInfo::from("test").out_count());
    assert_eq!(Sin::outputs(), 1);
    assert_eq!(Out::outputs(), 0);
    assert_eq!(TSeq::outputs(), 6);
}

#[test]
fn set_sample_rate_and_reset_of_the_oscillator() {
    let mut sin = Sin::new();
    let input = [buffer(|_| 0.0)];
    let mut output = [ProcBuf::new()];
    let mut led = [0_u32];
    let mut ctx = StereoBlock::new(16);
    sin.process(&mut ctx, &[], &[], &input, &mut output, &mut led, sine);
    assert_ne!(sin.phase(), 0);
    let moved = sin.phase();
    sin.set_sample_rate(bits(48000.0));
    assert_eq!(f32::from_bits(sin.srate()), 48000.0);
    assert_eq!(sin.phase(), moved);
    sin.reset();
    assert_eq!(sin.phase(), 0);
    assert_eq!(f32::from_bits(sin.srate()), 48000.0);
}

#[test]
fn set_sample_rate_and_reset_of_a_node() {
    let mut node = node_factory(NodeId::Sin(0)).unwrap().0;
    node.set_sample_rate(bits(96000.0));
    let input = [buffer(|_| 0.1)];
    let mut output = [ProcBuf::new()];
    let mut led = [0_u32];
    let mut ctx = StereoBlock::new(8);
    assert!(node.process(&mut ctx, &[], &[], &input, &mut output, &mut led, sine));
    match &node {
        Node::Sin { node } => {
            assert_eq!(f32::from_bits(node.srate()), 96000.0);
            assert_ne!(node.phase(), 0);
        }
        _ => panic!("not an oscillator"),
    }
    node.reset();
    match &node {
        Node::Sin { node } => {
            assert_eq!(f32::from_bits(node.srate()), 96000.0);
            assert_eq!(node.phase(), 0);
        }
        _ => panic!("not an oscillator"),
    }
    let mut tseq = node_factory(NodeId::TSeq(0)).unwrap().0;
    tseq.set_sample_rate(bits(22050.0));
    tseq.reset();
    match &tseq {
        Node::TSeq { node } => assert_eq!(f32::from_bits(node.srate()), 22050.0),
        _ => panic!("not a sequencer"),
    }
    for id in [NodeId::Amp(0), NodeId::Out(0), NodeId::Test(0)] {
        let mut node = node_factory(id).unwrap().0;
        node.set_sample_rate(bits(8000.0));
        node.reset();
        assert_eq!(node.to_id(0), id);
    }
    let mut nop = Node::Nop;
    nop.set_sample_rate(bits(8000.0));
    nop.reset();
    assert!(matches!(nop, Node::Nop));
}

#[test]
fn stereo_block_keeps_what_is_written() {
    let mut ctx = StereoBlock::new(4);
    assert_eq!(ctx.nframes(), 4);
    for c in 0..3 {
        for f in 0..MAX_BLOCK_SIZE + 2 {
            assert_eq!(ctx.sample(c, f), 0);
        }
    }
    ctx.output(0, 1, bits(0.5));
    ctx.output(1, 3, bits(-0.5));
    assert_eq!(f32::from_bits(ctx.sample(0, 1)), 0.5);
    assert_eq!(f32::from_bits(ctx.sample(1, 3)), -0.5);
    assert_eq!(ctx.sample(1, 1), 0);
    assert_eq!(ctx.sample(0, 3), 0);
    assert_eq!(ctx.sample(0, 0), 0);
    assert_eq!(ctx.nframes(), 4);
    assert_eq!(StereoBlock::new(0).nframes(), 0);
    assert_eq!(StereoBlock::new(MAX_BLOCK_SIZE).nframes(), MAX_BLOCK_SIZE);
}

#[test]
fn sink_in_mono_sends_channel_one_to_both() {
    let inputs = [buffer(|i| i as f32 * 0.25), buffer(|i| -(i as f32))];
    let atoms = [SAtom::setting(1)];
    let mut led = [bits(9.0), bits(8.0)];
    let mut ctx = StereoBlock::new(MAX_BLOCK_SIZE);
    let mut out = Out::new();
    out.process(&mut ctx, &atoms, &[], &inputs, &mut [], &mut led);
    for f in 0..MAX_BLOCK_SIZE {
        assert_eq!(f32::from_bits(ctx.sample(0, f)), f as f32 * 0.25);
        assert_eq!(ctx.sample(0, f), ctx.sample(1, f));
    }
    assert_eq!(f32::from_bits(led[0]), (MAX_BLOCK_SIZE - 1) as f32 * 0.25);
    assert_eq!(f32::from_bits(led[1]), 8.0);
}

#[test]
fn sink_in_mono_needs_one_input_only() {
    let inputs = [buffer(|i| 1.0 + i as f32)];
    let atoms = [SAtom::setting(5)];
    let mut led = [0_u32];
    let mut ctx = StereoBlock::new(3);
    Out::new().process(&mut ctx, &atoms, &[], &inputs, &mut [], &mut led);
    for f in 0..3 {
        assert_eq!(f32::from_bits(ctx.sample(0, f)), 1.0 + f as f32);
        assert_eq!(f32::from_bits(ctx.sample(1, f)), 1.0 + f as f32);
    }
    assert_eq!(ctx.sample(0, 3), 0);
    assert_eq!(ctx.sample(1, 3), 0);
    assert_eq!(f32::from_bits(led[0]), 3.0);
}

#[test]
fn sink_in_stereo_differs_where_the_inputs_differ() {
    let left = |i: usize| (i as f32 * 0.1).sin();
    let right = |i: usize| if i % 3 == 0 { (i as f32 * 0.1).sin() } else { i as f32 };
    let inputs = [buffer(left), buffer(right)];
    let atoms = [SAtom::setting(0)];
    let mut led = [0_u32];
    let mut ctx = StereoBlock::new(100);
    Out::new().process(&mut ctx, &atoms, &[], &inputs, &mut [], &mut led);
    for f in 0..100 {
        assert_eq!(ctx.sample(0, f), bits(left(f)));
        assert_eq!(ctx.sample(1, f), bits(right(f)));
        assert_eq!(ctx.sample(0, f) != ctx.sample(1, f), inputs[0].read(f) != inputs[1].read(f));
        assert_eq!(ctx.sample(0, f) != ctx.sample(1, f), f % 3 != 0);
    }
    for f in 100..MAX_BLOCK_SIZE {
        assert_eq!(ctx.sample(0, f), 0);
        assert_eq!(ctx.sample(1, f), 0);
    }
    assert_eq!(led[0], bits(left(99)));
}

#[test]
fn sink_takes_a_param_atom_by_its_whole_part() {
    let inputs = [buffer(|_| 1.0), buffer(|_| 2.0)];
    let mut led = [0_u32];
    let mut ctx = StereoBlock::new(2);
    Out::new().process(&mut ctx, &[SAtom::param(bits(0.9))], &[], &inputs, &mut [], &mut led);
    assert_eq!(f32::from_bits(ctx.sample(1, 0)), 2.0);
    let mut ctx = StereoBlock::new(2);
    Out::new().process(&mut ctx, &[SAtom::param(bits(1.0))], &[], &inputs, &mut [], &mut led);
    assert_eq!(f32::from_bits(ctx.sample(1, 0)), 1.0);
    let mut ctx = StereoBlock::new(2);
    Out::new().process(&mut ctx, &[SAtom::str("mono")], &[], &inputs, &mut [], &mut led);
    assert_eq!(f32::from_bits(ctx.sample(1, 0)), 2.0);
    let mut ctx = StereoBlock::new(2);
    Out::new().process(&mut ctx, &[SAtom::setting(-1)], &[], &inputs, &mut [], &mut led);
    assert_eq!(f32::from_bits(ctx.sample(1, 0)), 2.0);
}

#[test]
fn sink_reads_an_unconnected_input_as_silence() {
    let inputs = [buffer(|_| 0.5), ProcBuf::null()];
    let mut led = [0_u32];
    let mut ctx = StereoBlock::new(4);
    ctx.output(1, 2, bits(7.0));
    Out::new().process(&mut ctx, &[SAtom::setting(0)], &[], &inputs, &mut [], &mut led);
    for f in 0..4 {
        assert_eq!(f32::from_bits(ctx.sample(0, f)), 0.5);
        assert_eq!(ctx.sample(1, f), 0);
    }
}

#[test]
fn node_runs_the_sink_and_the_placeholder() {
    let inputs = [buffer(|i| i as f32), buffer(|i| 2.0 * i as f32)];
    let atoms = [SAtom::setting(0)];
    let mut led = [0_u32];
    let mut ctx = StereoBlock::new(10);
    let mut node = node_factory(NodeId::Out(0)).unwrap().0;
    assert!(node.process(&mut ctx, &atoms, &[], &inputs, &mut [], &mut led, no_osc));
    for f in 0..10 {
        assert_eq!(f32::from_bits(ctx.sample(0, f)), f as f32);
        assert_eq!(f32::from_bits(ctx.sample(1, f)), 2.0 * f as f32);
    }
    assert_eq!(f32::from_bits(led[0]), 9.0);
    let mut led = [bits(3.0)];
    let mut ctx = StereoBlock::new(10);
    assert!(Node::Nop.process(&mut ctx, &[], &[], &[], &mut [], &mut led, no_osc));
    assert_eq!(f32::from_bits(led[0]), 3.0);
    assert_eq!(ctx.sample(0, 0), 0);
}

#[test]
fn node_leaves_the_other_kinds_to_their_host() {
    for id in [NodeId::Amp(0), NodeId::TSeq(0), NodeId::Test(0)] {
        let mut node = node_factory(id).unwrap().0;
        let inputs = [buffer(|_| 1.0), buffer(|_| 1.0), buffer(|_| 1.0)];
        let mut outputs = [buffer(|_| 5.0)];
        let mut led = [bits(3.0)];
        let mut ctx = StereoBlock::new(10);
        assert!(!node.process(&mut ctx, &[], &[], &inputs, &mut outputs, &mut led, no_osc));
        assert_eq!(f32::from_bits(led[0]), 3.0);
        assert_eq!(f32::from_bits(outputs[0].read(0)), 5.0);
        assert_eq!(ctx.sample(0, 0), 0);
        assert_eq!(node.to_id(0), id);
    }
}

#[test]
fn oscillator_threads_the_phase_through_the_block() {
    let count = |p: u32, f: u32, s: u32| (p.wrapping_mul(10).wrapping_add(f), p + s);
    let mut sin = Sin::new();
    sin.set_sample_rate(2);
    let mut freq = ProcBuf::new();
    for i in 0..MAX_BLOCK_SIZE {
        freq.write(i, i as u32 % 10);
    }
    let inputs = [freq];
    let mut outputs = [buffer(|_| 1.0), buffer(|_| 2.0)];
    let mut led = [0_u32, 77];
    let mut ctx = StereoBlock::new(5);
    sin.process(&mut ctx, &[], &[], &inputs, &mut outputs, &mut led, count);
    // phases 0, 2, 4, 6, 8 meet frequencies 0, 1, 2, 3, 4
    for f in 0..5_u32 {
        assert_eq!(outputs[0].read(f as usize), 20 * f + f);
    }
    for f in 5..MAX_BLOCK_SIZE {
        assert_eq!(f32::from_bits(outputs[0].read(f)), 1.0);
        assert_eq!(f32::from_bits(outputs[1].read(f)), 2.0);
    }
    assert_eq!(sin.phase(), 10);
    assert_eq!(sin.srate(), 2);
    assert_eq!(led, [84, 77]);
    assert_eq!(ctx.sample(0, 0), 0);
    // the next block goes on from where this one ended
    sin.process(&mut ctx, &[], &[], &inputs, &mut outputs, &mut led, count);
    assert_eq!(outputs[0].read(0), 100);
    assert_eq!(sin.phase(), 20);
}

#[test]
fn oscillator_of_no_frames_reports_silence() {
    let mut sin = Sin::new();
    let inputs = [buffer(|_| 0.0)];
    let mut outputs = [buffer(|_| 1.0)];
    let mut led = [bits(5.0)];
    let mut ctx = StereoBlock::new(0);
    sin.process(&mut ctx, &[], &[], &inputs, &mut outputs, &mut led, sine);
    assert_eq!(led[0], bits(0.0));
    assert_eq!(sin.phase(), 0);
    assert_eq!(f32::from_bits(outputs[0].read(0)), 1.0);
}

#[test]
fn oscillator_into_an_unconnected_output_still_moves_on() {
    let mut sin = Sin::new();
    let inputs = [buffer(|_| 0.0)];
    let mut outputs = [ProcBuf::null()];
    let mut led = [0_u32];
    let mut ctx = StereoBlock::new(32);
    sin.process(&mut ctx, &[], &[], &inputs, &mut outputs, &mut led, sine);
    assert!(outputs[0].is_null());
    assert_eq!(outputs[0].read(3), 0);
    assert_ne!(sin.phase(), 0);
    assert_ne!(led[0], 0);
}

#[test]
fn oscillator_crosses_zero_once_a_period() {
    for (f, sr) in [(441.0_f32, 44100.0_f32), (1000.0, 48000.0), (110.25, 44100.0)] {
        let norm = (f / 440.0).log2() / 10.0;
        let inputs = [buffer(|_| norm)];
        let mut outputs = [ProcBuf::new()];
        let mut led = [0_u32];
        let mut node = node_factory(NodeId::Sin(0)).unwrap().0;
        node.set_sample_rate(bits(sr));
        let mut signal = Vec::new();
        for _ in 0..80 {
            let mut ctx = StereoBlock::new(MAX_BLOCK_SIZE);
            assert!(node.process(&mut ctx, &[], &[], &inputs, &mut outputs, &mut led, sine));
            for i in 0..MAX_BLOCK_SIZE {
                signal.push(f32::from_bits(outputs[0].read(i)));
            }
            assert_eq!(led[0], outputs[0].read(MAX_BLOCK_SIZE - 1));
        }
        let mut crossings = Vec::new();
        for i in 1..signal.len() {
            if signal[i - 1] < 0.0 && signal[i] >= 0.0 {
                crossings.push(i);
            }
        }
        assert!(crossings.len() > 10);
        let period = sr / f;
        for pair in crossings.windows(2) {
            let measured = (pair[1] - pair[0]) as f32;
            assert!((measured - period).abs() <= 1.0, "{} {} {}", f, measured, period);
        }
        let mean = (crossings[crossings.len() - 1] - crossings[0]) as f32
            / (crossings.len() - 1) as f32;
        assert!((mean - period).abs() < 1.0, "{} {} {}", f, mean, period);
    }
}

#[test]
fn a_copy_of_a_node_is_in_the_same_state() {
    let mut node = node_factory(NodeId::Sin(0)).unwrap().0;
    node.set_sample_rate(bits(48000.0));
    let inputs = [buffer(|_| 0.2)];
    let mut outputs = [ProcBuf::new()];
    let mut led = [0_u32];
    let mut ctx = StereoBlock::new(7);
    node.process(&mut ctx, &[], &[], &inputs, &mut outputs, &mut led, sine);
    let copy = node.clone();
    match (&node, &copy) {
        (Node::Sin { node: a }, Node::Sin { node: b }) => {
            assert_eq!(a.phase(), b.phase());
            assert_eq!(a.srate(), b.srate());
        }
        _ => panic!("not an oscillator"),
    }
    for id in [NodeId::Amp(0), NodeId::TSeq(0), NodeId::Out(0), NodeId::Test(0)] {
        let node = node_factory(id).unwrap().0;
        assert_eq!(format!("{:?}", node.clone()), format!("{:?}", node));
    }
    assert!(matches!(Node::Nop.clone(), Node::Nop));
}

#[test]
fn sink_of_no_frames_reads_and_writes_nothing() {
    let inputs = [buffer(|i| 1.0 + i as f32), buffer(|i| 2.0 + i as f32)];
    for mono in [0, 1] {
        let mut led = [bits(9.0), bits(8.0)];
        let mut ctx = StereoBlock::new(0);
        Out::new().process(&mut ctx, &[SAtom::setting(mono)], &[], &inputs, &mut [], &mut led);
        assert_eq!(ctx.nframes(), 0);
        for c in 0..2 {
            for f in 0..MAX_BLOCK_SIZE {
                assert_eq!(ctx.sample(c, f), 0);
            }
        }
        assert_eq!(led, [bits(9.0), bits(8.0)]);
    }
    let mut led = [bits(9.0)];
    let mut ctx = StereoBlock::new(0);
    let mut node = node_factory(NodeId::Out(0)).unwrap().0;
    assert!(node.process(&mut ctx, &[SAtom::setting(0)], &[], &inputs, &mut [], &mut led, no_osc));
    assert_eq!(led, [bits(9.0)]);
    assert_eq!(ctx.sample(0, 0), 0);
    assert_eq!(ctx.sample(1, 0), 0);
}

#[test]
fn reset_leaves_a_node_without_state_as_it_was() {
    for id in [NodeId::Amp(3), NodeId::Out(3), NodeId::Test(3)] {
        let mut node = node_factory(id).unwrap().0;
        let before = format!("{:?}", node);
        node.reset();
        assert_eq!(format!("{:?}", node), before);
        node.set_sample_rate(bits(12345.0));
        assert_eq!(format!("{:?}", node), before);
    }
    let mut tseq = TSeq::new();
    tseq.set_sample_rate(bits(32000.0));
    tseq.reset();
    assert_eq!(f32::from_bits(tseq.srate()), 32000.0);
    assert_eq!(tseq.row(), 0);
    assert_eq!(tseq.phase(), 0);
}
