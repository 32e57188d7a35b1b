use std::sync::Arc;

use gpu_util::compiled_func::{
    channel_count, check_output, CompiledFunc, CpuFunction, CpuInputImage, CpuOutput,
};
use gpu_util::error::EngineError;
use gpu_util::image_generate_builder::ImageGenerateBuilder;
use gpu_util::image_generator::cpu_func_process::{
    accept_download, accept_output, assemble_inputs, run_cpu_function,
};
use gpu_util::image_generator::final_process::accept_readback;
use gpu_util::image_generator::parallel_process::{
    contains_cpu_step, join_states, plan_has_cpu_step,
};
use gpu_util::image_generator::wgsl_process::{check_image, check_state};
use gpu_util::image_generator::{share_state, StepOutput};

struct Echo;

impl CpuFunction for Echo {
    fn call(&self, inputs: &[CpuInputImage], params: Option<&[u8]>) -> Result<CpuOutput, String> {
        let mut data: Vec<u32> = Vec::new();
        for input in inputs {
            data.extend_from_slice(input.data);
        }
        if let Some(bytes) = params {
            data.extend(bytes.iter().map(|byte| *byte as u32));
        }
        Ok(CpuOutput { data, width: 1, height: 2 })
    }
}

fn cpu(values: Vec<u32>, width: u32, height: u32) -> StepOutput {
    StepOutput::Cpu { data: Arc::new(values), width, height }
}

fn channels(image: &StepOutput) -> Vec<u32> {
    match image {
        StepOutput::Cpu { data, .. } => data.to_vec(),
        StepOutput::Gpu { .. } => panic!("an image in CPU memory was expected"),
    }
}

#[test]
fn channel_counts() {
    assert_eq!(channel_count(0, 0), 0);
    assert_eq!(channel_count(1, 1), 4);
    assert_eq!(channel_count(4, 4), 64);
    assert_eq!(channel_count(1920, 1080), 8_294_400);
    assert_eq!(channel_count(u32::MAX, u32::MAX), 73_786_976_260_478_468_100);
}

#[test]
fn output_is_checked_against_both_sizes() {
    let output = CpuOutput { data: vec![0; 64], width: 4, height: 4 };
    assert!(check_output(&output, 4, 4));
    assert!(check_output(&output, 2, 8));
    assert!(!check_output(&output, 4, 5));
    let output = CpuOutput { data: vec![0; 64], width: 4, height: 5 };
    assert!(!check_output(&output, 4, 4));
    let output = CpuOutput { data: vec![0; 4], width: 4, height: 4 };
    assert!(!check_output(&output, 4, 4));
    let output = CpuOutput { data: Vec::new(), width: 0, height: 7 };
    assert!(check_output(&output, 0, 0));
}

#[test]
fn accepted_output_takes_the_declared_size() {
    let output = CpuOutput { data: (0..16).collect(), width: 1, height: 4 };
    match accept_output(Ok(output), 2, 2) {
        Ok(StepOutput::Cpu { data, width, height }) => {
            assert_eq!(*data, (0..16).collect::<Vec<u32>>());
            assert_eq!((width, height), (2, 2));
        }
        _ => panic!("the image is accepted"),
    }
}

#[test]
fn refused_output_names_both_lengths() {
    let output = CpuOutput { data: vec![0; 4], width: 1, height: 1 };
    assert!(matches!(
        accept_output(Ok(output), 4, 4),
        Err(EngineError::CpuOutputSize { expected: 64, actual: 4 })
    ));
    assert!(matches!(
        accept_output(Err(String::from("no")), 4, 4),
        Err(EngineError::CpuFunction(message)) if message == "no"
    ));
}

#[test]
fn inputs_are_assembled_in_order() {
    let owned = vec![cpu(vec![1, 2, 3, 4], 1, 1), cpu((0..32).collect(), 4, 2)];
    let inputs = assemble_inputs(&owned);
    assert_eq!(inputs.len(), 2);
    assert_eq!((inputs[0].width, inputs[0].height), (1, 1));
    assert_eq!(inputs[0].data, &[1, 2, 3, 4]);
    assert_eq!((inputs[1].width, inputs[1].height), (4, 2));
    assert_eq!(inputs[1].data, (0..32).collect::<Vec<u32>>().as_slice());
    assert!(assemble_inputs(&Vec::new()).is_empty());
}

#[test]
fn function_gets_inputs_and_parameters() {
    let func = CompiledFunc::new(Box::new(Echo));
    let owned = vec![cpu(vec![1, 2], 9, 9), cpu(vec![3], 9, 9)];
    let inputs = assemble_inputs(&owned);
    let params = Some(Arc::new(vec![4u8, 5, 6, 7, 8]));
    let image = run_cpu_function(&func, &inputs, &params, 2, 1, &Vec::new()).expect("accepted");
    assert_eq!(channels(&image), vec![1, 2, 3, 4, 5, 6, 7, 8]);
    let refused = run_cpu_function(&func, &inputs, &None, 2, 1, &Vec::new());
    assert!(matches!(refused, Err(EngineError::CpuOutputSize { expected: 8, actual: 3 })));
}

#[test]
fn images_are_checked_before_upload() {
    assert_eq!(check_image(&cpu(vec![0; 16], 2, 2)), None);
    assert_eq!(
        check_image(&cpu(vec![0; 15], 2, 2)),
        Some(EngineError::ImageSize { expected: 16, actual: 15 })
    );
    assert_eq!(
        check_image(&cpu(Vec::new(), 0x1000_0000, 0)),
        Some(EngineError::ImageTooLarge { width: 0x1000_0000, height: 0 })
    );
    assert_eq!(check_image(&cpu(Vec::new(), 0x0fff_ffff, 0)), None);
}

#[test]
fn first_faulty_image_decides() {
    let state = vec![
        cpu(vec![0; 4], 1, 1),
        cpu(vec![0; 5], 1, 1),
        cpu(vec![0; 6], 1, 1),
    ];
    assert_eq!(check_state(&state), Some(EngineError::ImageSize { expected: 4, actual: 5 }));
    assert_eq!(check_state(&vec![cpu(vec![0; 4], 1, 1)]), None);
    assert_eq!(check_state(&Vec::new()), None);
}

#[test]
fn shared_state_holds_the_same_images() {
    let data = Arc::new(vec![1u32, 2, 3, 4]);
    let state = vec![StepOutput::Cpu { data: data.clone(), width: 1, height: 1 }];
    let copy = share_state(&state);
    assert_eq!(copy.len(), 1);
    match &copy[0] {
        StepOutput::Cpu { data: shared, width, height } => {
            assert!(Arc::ptr_eq(shared, &data));
            assert_eq!((*width, *height), (1, 1));
        }
        StepOutput::Gpu { .. } => panic!("the image lives in CPU memory"),
    }
}

#[test]
fn states_are_joined_in_the_order_of_the_plans() {
    let parts = vec![
        vec![cpu(vec![1], 0, 0), cpu(vec![2], 0, 0)],
        Vec::new(),
        vec![cpu(vec![3], 0, 0)],
    ];
    let joined = join_states(parts);
    let seen: Vec<Vec<u32>> = joined.iter().map(channels).collect();
    assert_eq!(seen, vec![vec![1], vec![2], vec![3]]);
    assert!(join_states(Vec::new()).is_empty());
    let one = join_states(vec![vec![cpu(vec![9], 0, 0)]]);
    assert_eq!(one.iter().map(channels).collect::<Vec<_>>(), vec![vec![9]]);
}

#[test]
fn cpu_steps_are_found_at_any_depth() {
    let func = || CompiledFunc::new(Box::new(Echo));
    let empty = ImageGenerateBuilder::new();
    let with_cpu = ImageGenerateBuilder::new().add_func(func(), None, 1, 1);
    let nested = ImageGenerateBuilder::new().add_parallel_wgsl(vec![empty.clone(), with_cpu.clone()]);
    let deeper = ImageGenerateBuilder::new().add_parallel_wgsl(vec![nested.clone()]);
    let hollow = ImageGenerateBuilder::new()
        .add_parallel_wgsl(vec![empty.clone()])
        .add_parallel_wgsl(Vec::new());
    assert!(!contains_cpu_step(&Vec::new()));
    assert!(!contains_cpu_step(&vec![empty.clone()]));
    assert!(!contains_cpu_step(&vec![hollow.clone(), empty.clone()]));
    assert!(contains_cpu_step(&vec![with_cpu.clone()]));
    assert!(contains_cpu_step(&vec![empty.clone(), with_cpu.clone()]));
    assert!(contains_cpu_step(&vec![with_cpu.clone(), empty.clone()]));
    assert!(contains_cpu_step(&vec![nested.clone(), empty.clone()]));
    assert!(contains_cpu_step(&vec![hollow.clone(), deeper.clone()]));
    assert!(!plan_has_cpu_step(empty.steps()));
    assert!(!plan_has_cpu_step(hollow.steps()));
    assert!(plan_has_cpu_step(with_cpu.steps()));
    assert!(plan_has_cpu_step(deeper.steps()));
    let later = hollow.clone().add_func(func(), None, 1, 1);
    assert!(plan_has_cpu_step(later.steps()));
}

#[test]
fn bytes_read_back_are_the_image_only_in_the_number_asked_for() {
    assert_eq!(accept_readback(vec![1, 2, 3, 4], 4), Ok(vec![1, 2, 3, 4]));
    assert_eq!(accept_readback(Vec::new(), 0), Ok(Vec::new()));
    assert_eq!(
        accept_readback(vec![1, 2, 3], 4),
        Err(EngineError::Readback { expected: 4, actual: 3 })
    );
    assert_eq!(
        accept_readback(vec![0; 8], 4),
        Err(EngineError::Readback { expected: 4, actual: 8 })
    );
    assert_eq!(
        accept_readback(Vec::new(), u64::MAX),
        Err(EngineError::Readback { expected: 18_446_744_073_709_551_615, actual: 0 })
    );
}

#[test]
fn downloaded_rows_become_channels_only_in_the_number_asked_for() {
    let padded = vec![0u8; 512];
    assert_eq!(accept_download(padded, 3, 2).map(|channels| channels.len()), Ok(24));
    assert_eq!(accept_download(Vec::new(), 0, 5), Ok(Vec::new()));
    let mut row = vec![0u8; 256];
    row[..16].copy_from_slice(&[1, 0, 0, 0, 2, 0, 0, 0, 3, 0, 0, 0, 4, 0, 0, 0]);
    let channels = accept_download(row, 1, 1).expect("one padded row");
    assert_eq!(channels.len(), 4);
    assert_eq!(
        channels.iter().map(|channel| u32::from_ne_bytes(channel.to_ne_bytes())).sum::<u32>(),
        u32::from_ne_bytes([1, 0, 0, 0])
            + u32::from_ne_bytes([2, 0, 0, 0])
            + u32::from_ne_bytes([3, 0, 0, 0])
            + u32::from_ne_bytes([4, 0, 0, 0])
    );
    assert_eq!(
        accept_download(vec![0; 96], 3, 2),
        Err(EngineError::Readback { expected: 512, actual: 96 })
    );
    assert_eq!(
        accept_download(vec![0; 1], 0, 0),
        Err(EngineError::Readback { expected: 0, actual: 1 })
    );
}
