use lumr::extent::Extent;
use lumr::renderer::{Command, DrawWorkload, Renderer};
use lumr::swapchain_manager::{CompositeAlpha, SwapchainConfig, SwapchainManager};

fn manager_with_images(image_count: u32) -> SwapchainManager {
    SwapchainManager::new(&SwapchainConfig {
        image_count,
        format: 7,
        composite_alpha: CompositeAlpha::Opaque,
        extent: Extent::new(800, 600),
    })
}

#[test]
fn full_buffer_workload_draws_every_vertex_once() {
    let workload = DrawWorkload::full_buffer(3);
    assert_eq!(workload.vertex_count, 3);
    assert_eq!(workload.instance_count, 1);
    assert_eq!(workload.first_vertex, 0);
    assert_eq!(workload.first_instance, 0);
}

#[test]
fn one_command_buffer_per_framebuffer_each_distinct() {
    for n in [1u32, 2, 3, 5] {
        let manager = manager_with_images(n);
        let renderer = Renderer::new(&manager, Extent::new(800, 600), DrawWorkload::full_buffer(3));
        assert_eq!(renderer.command_buffers.len(), n as usize);
        for (i, cb) in renderer.command_buffers.iter().enumerate() {
            assert_eq!(cb.framebuffer_index, i);
        }
        for i in 0..renderer.command_buffers.len() {
            for j in 0..renderer.command_buffers.len() {
                if i != j {
                    assert_ne!(
                        renderer.command_buffers[i].framebuffer_index,
                        renderer.command_buffers[j].framebuffer_index
                    );
                }
            }
        }
    }
}

#[test]
fn command_buffers_record_the_fixed_draw_sequence() {
    let manager = manager_with_images(2);
    let renderer = Renderer::new(&manager, Extent::new(800, 600), DrawWorkload::full_buffer(3));
    for (i, cb) in renderer.command_buffers.iter().enumerate() {
        assert!(cb.multiple_submit);
        assert_eq!(cb.generation, 0);
        assert_eq!(cb.commands.len(), 5);
        assert_eq!(
            cb.commands[0],
            Command::BeginRenderPass {
                framebuffer_index: i,
                render_pass_generation: 0,
                clear: true
            }
        );
        assert_eq!(cb.commands[1], Command::BindPipeline { pipeline_generation: 0 });
        assert_eq!(
            cb.commands[2],
            Command::BindVertexBuffers { first_binding: 0, vertex_count: 3 }
        );
        assert_eq!(
            cb.commands[3],
            Command::Draw { vertex_count: 3, instance_count: 1, first_vertex: 0, first_instance: 0 }
        );
        assert_eq!(cb.commands[4], Command::EndRenderPass);
    }
}

#[test]
fn rebuild_targets_the_new_generation_with_a_new_pipeline() {
    let mut manager = manager_with_images(2);
    let mut renderer =
        Renderer::new(&manager, Extent::new(800, 600), DrawWorkload::full_buffer(3));
    manager.recreate(Extent::new(1024, 768));
    renderer.recreate_command_buffer(&manager, Extent::new(1024, 768));
    assert_eq!(renderer.pipeline.generation, 1);
    assert_eq!(renderer.pipeline.viewport, Extent::new(1024, 768));
    assert_eq!(renderer.command_buffers.len(), 2);
    for (i, cb) in renderer.command_buffers.iter().enumerate() {
        assert_eq!(cb.framebuffer_index, i);
        assert_eq!(cb.generation, 1);
        assert_eq!(cb.commands[1], Command::BindPipeline { pipeline_generation: 1 });
    }
    // The workload itself never varies across rebuilds.
    assert_eq!(renderer.workload, DrawWorkload::full_buffer(3));
}
